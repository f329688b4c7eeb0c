# dusk_api

Common ground of the Dusk plugin system, shared by plugins and by the
programs that load them.

- `src/` is the verified library:
  - `version.rs`: plugin versions, their order, and the laws of that order;
  - `request.rs`: requests between plugins, and host limitations;
  - `items.rs`: the descriptions a plugin gives of its modules, types,
    functions and parameters, generic in the callable that runs a function
    and in the value a parameter holds;
  - `layout.rs`: the function list and the type list a host builds from a
    plugin's module tree, each item at the position of its ID, with the
    laws those lists obey;
  - `error.rs`: errors, and the compatibility check made before a plugin
    is used.
- `app/` holds what needs the machine: loading plugin libraries, the
  traits a plugin implements, callables made of function pointers, and the
  macros that export a plugin. It fixes the generic descriptions to boxed
  callables and boxed values.
- `tests/` exercises the library on concrete plugins.
