# qubit_validator

Typed validation rules, a small binding boundary for running configured rules
by stable identifier, and deterministic local registries. The library's
functions are verified by Verus against their contracts, apart from the few
trusted ones listed below.

## Layout

- `src/argument`: named parameter values and their redacted descriptions.
- `src/binding`: parameter decoding (`ArgumentReader`), erased values and input
  shapes, dependency slots, prepared and bound validators, adapters from typed
  `Validator`s, and binding and execution errors.
- `src/registry`: signatures, descriptors and their well-formedness rules,
  registration sources and the `ValidatorRegistry`, with the order lemmas that
  its construction and lookup rest on.
- `src/report`: paths, violations and safe violation parameters.
- `src/internal`: the dotted identifier protocol and byte-wise text order.
- `app`: process-wide registration through `inventory` (`register_validator!`,
  `try_global`, `global`), which freezes the linked registrations into one
  verified `ValidatorRegistry`.

## Trusted boundary

The contracts that Verus takes without proof are few and small: the
`TypeId` of a type, its `Debug` text and the equality of two `TypeId`s, the
opaque `&dyn Any` reference behind typed values and its downcast, and
`String::push`. Some verified functions state less than they do because their
results go through these: which `TypeId` belongs to a type parameter, whether a
downcast succeeds, and which factory a `ValidatorSignature` holds.

The traits `Validator`, `PreparedValidator` and `PrepareFn` are for users to
implement. Each carries spec methods (`accepts`/`rejects`, `spec_validates`,
`spec_prepares`) that the library's contracts are stated over; an
implementation outside Verus supplies them as ordinary functions that are
never called at run time.
