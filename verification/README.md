# dqcsim

The verified core of the DQCsim quantum simulator framework, written in
Verus.

* `src/` is the library: log levels and log records with the thread-local
  logger state (`log`), the C API's enumerations and their conversions
  (`ctypes`), the predefined gates with exact matrix entries and their
  algebraic laws (`gates`), plugin definitions with their
  default callbacks (`definition`), the plugin process life cycle decisions
  (`process`), the plugin initialization protocol and the order in which a chain of
  plugins is initialized (`plugin`, `protocol`) and
  the command line's log level parsing (`cli`).
* `app/` is the `dqcsim` program around it: inter-process channels, process
  spawning, thread-local storage, log output, serialization, and the
  floating-point entries of gate matrices.
* `tests/` exercises the library on concrete values.

Plugin definitions describe their callbacks rather than holding closures:
each callback is a `Callback` value (accept, reject with a message, forward
to a method of the plugin state, or pass a measurement on), and
`PluginDefinition::set_callbacks` overrides them with other such values.
Code of the user's own cannot be stored as a callback; the program that runs
a plugin carries out what its callbacks describe.
