# weakproxy

Weak reference proxies of a Python object system, verified with Verus.

A weak proxy stands for another object without keeping it alive. While the
referent lives, the proxy hands every operation to it, and holds a strong
reference to it until the operation is over. Once the referent is gone, every
operation raises `ReferenceError` with the message
`weakly-referenced object no longer exists`; only the representation still works,
and says that the proxy is dead. A proxy cannot be hashed, dead or alive.

- `object`: handles, exceptions and the other values that are passed around.
- `vm`: the classes, the objects and the strong references, which the interpreters
  of a process have in common. An object lives as long as there is a strong
  reference to it. A proxy has one to its callback, and drops it when it dies. What
  else an interpreter does when an object dies, such as calling callbacks, is not
  part of the library.
- `protocol`: what the rest of an interpreter does with an object, and the slots
  through which it comes back to a proxy. An `ObjectProtocol` may run any code, but
  it keeps the interpreter well formed, revives no object, and leaves alone the
  references that others hold. The contracts say which operation is asked for, on
  what, in which state.
- `proxy`: what both kinds of proxy are built from.
- `weakproxy`, `weakcallableproxy`: the two kinds of proxy, their slot tables, and
  the functions that run a slot.
- `text`: numbers in hexadecimal.
- `laws`: what holds of the proxies as a whole.
