//! Strict, one-pass decoding of named validator parameters.

use vstd::prelude::*;

use super::BindError;
use super::BindErrorKind;
use crate::internal::text::count_text;
use crate::internal::text::describe_count;
use crate::internal::text::str_eq;
use crate::NamedValidationArgument;
use crate::ValidationArgument;
use crate::ValidatorId;

verus! {

/// Reads declared arguments exactly once while rejecting duplicates, unknown
/// names, and lossy numeric conversions.
///
/// A present parameter can be read at most once. A typed read consumes the
/// parameter before decoding it, so type and range errors also complete that
/// parameter's consumption. Call [`Self::finish`] to reject parameters that
/// were never read.
pub struct ArgumentReader<'a> {
    /// Declared parameters in caller-provided order.
    args: &'a [NamedValidationArgument<'a>],
    /// Per-parameter flags recording successful or failed read attempts.
    consumed: Vec<bool>,
}

/// Argument `i` repeats the name of an earlier argument.
pub open spec fn repeats_earlier_name(args: Seq<NamedValidationArgument>, i: int) -> bool {
    exists|j: int| 0 <= j < i && #[trigger] args[j].spec_name()@ == args[i].spec_name()@
}

/// The first argument, in order, that repeats an earlier name.
pub open spec fn first_duplicate(args: Seq<NamedValidationArgument>) -> Option<int> {
    if exists|i: int| 0 <= i < args.len() && #[trigger] repeats_earlier_name(args, i) {
        Some(choose|i: int|
            0 <= i < args.len() && repeats_earlier_name(args, i) && forall|k: int|
                0 <= k < i ==> !#[trigger] repeats_earlier_name(args, k))
    } else {
        None
    }
}

/// All argument names differ.
pub open spec fn names_distinct(args: Seq<NamedValidationArgument>) -> bool {
    forall|i: int, j: int| 0 <= i < j < args.len() ==> #[trigger] args[i].spec_name()@ != #[trigger] args[j].spec_name()@
}

/// The position of the argument named `name`, if there is one.
pub open spec fn name_index(args: Seq<NamedValidationArgument>, name: Seq<char>) -> Option<int> {
    if exists|i: int| 0 <= i < args.len() && #[trigger] args[i].spec_name()@ == name {
        Some(choose|i: int| 0 <= i < args.len() && #[trigger] args[i].spec_name()@ == name)
    } else {
        None
    }
}

/// Taking `name`: `Ok(None)` when no argument has that name, the error kind
/// when it was consumed before, else `Ok(Some(i))` for its position `i`.
pub open spec fn take_result(args: Seq<NamedValidationArgument>, consumed: Seq<bool>, name: Seq<char>) -> Result<Option<int>, BindErrorKind> {
    match name_index(args, name) {
        None => Ok(None),
        Some(i) => if consumed[i] {
            Err(BindErrorKind::ParameterAlreadyConsumed)
        } else {
            Ok(Some(i))
        },
    }
}

/// The consumption flags after taking `name`.
pub open spec fn consumed_after(args: Seq<NamedValidationArgument>, consumed: Seq<bool>, name: Seq<char>) -> Seq<bool> {
    match name_index(args, name) {
        Some(i) => consumed.update(i, true),
        None => consumed,
    }
}

/// Decoding a value as `u32`: unsigned and non-negative signed integers that
/// fit convert exactly, other integers are out of range, and other values
/// have the wrong type.
pub open spec fn decode_u32(value: ValidationArgument) -> Result<u32, BindErrorKind> {
    match value {
        ValidationArgument::Unsigned(v) => if v <= u32::MAX {
            Ok(v as u32)
        } else {
            Err(BindErrorKind::ParameterOutOfRange)
        },
        ValidationArgument::Integer(v) => if 0 <= v <= u32::MAX {
            Ok(v as u32)
        } else {
            Err(BindErrorKind::ParameterOutOfRange)
        },
        _ => Err(BindErrorKind::ParameterTypeMismatch),
    }
}

/// Reading a parameter as `u32` is exact: a signed or unsigned integer from
/// 0 to `u32::MAX`, both included, reads as that very number; any other
/// integer is out of range; a value that is not an integer has the wrong
/// type. Whatever reads successfully is the integer that was given.
pub proof fn lemma_u32_reads_exactly(value: ValidationArgument)
    ensures
        value matches ValidationArgument::Integer(v) ==> if 0 <= v <= 0xffff_ffff {
            decode_u32(value) matches Ok(n) && n == v
        } else {
            decode_u32(value) == Err::<u32, BindErrorKind>(BindErrorKind::ParameterOutOfRange)
        },
        value matches ValidationArgument::Unsigned(v) ==> if v <= 0xffff_ffff {
            decode_u32(value) matches Ok(n) && n == v
        } else {
            decode_u32(value) == Err::<u32, BindErrorKind>(BindErrorKind::ParameterOutOfRange)
        },
        !(value is Integer) && !(value is Unsigned) ==> decode_u32(value) == Err::<u32, BindErrorKind>(BindErrorKind::ParameterTypeMismatch),
        decode_u32(value) matches Ok(n) ==> (value matches ValidationArgument::Integer(v) && v == n)
            || (value matches ValidationArgument::Unsigned(v) && v == n),
{
}

/// The view of an error of `kind` naming parameter `name`.
pub open spec fn parameter_error(kind: BindErrorKind, name: Seq<char>) -> (BindErrorKind, Option<ValidatorId>, Option<Seq<char>>, Option<Seq<char>>) {
    (kind, None, Some(name), None)
}

/// The first argument, in order, that was never consumed.
pub open spec fn first_unconsumed(consumed: Seq<bool>) -> Option<int> {
    if exists|i: int| 0 <= i < consumed.len() && !#[trigger] consumed[i] {
        Some(choose|i: int| 0 <= i < consumed.len() && !consumed[i] && forall|k: int| 0 <= k < i ==> #[trigger] consumed[k])
    } else {
        None
    }
}

/// A present parameter can be read at most once: after it has been taken,
/// taking it again reports it as already consumed.
pub proof fn lemma_parameter_read_once(args: Seq<NamedValidationArgument>, consumed: Seq<bool>, name: Seq<char>)
    requires
        consumed.len() == args.len(),
        name_index(args, name) is Some,
    ensures
        take_result(args, consumed_after(args, consumed, name), name)
            == Err::<Option<int>, BindErrorKind>(BindErrorKind::ParameterAlreadyConsumed),
{
}

impl<'a> ArgumentReader<'a> {
    /// The reader tracks one consumption flag per argument, and the argument
    /// names differ.
    #[verifier::type_invariant]
    spec fn wf(self) -> bool {
        &&& self.consumed@.len() == self.args@.len()
        &&& names_distinct(self.args@)
    }

    /// The declared arguments.
    pub closed spec fn spec_args(self) -> Seq<NamedValidationArgument<'a>> {
        self.args@
    }

    /// Which arguments have been consumed.
    pub closed spec fn spec_consumed(self) -> Seq<bool> {
        self.consumed@
    }

    /// Creates a reader and checks for duplicate parameter names.
    ///
    /// # Errors
    ///
    /// Returns `DuplicateParameter`, naming the first argument that repeats
    /// an earlier name, when a name occurs more than once.
    pub fn new(args: &'a [NamedValidationArgument<'a>]) -> (r: Result<Self, BindError>)
        ensures
            match first_duplicate(args@) {
                Some(i) => r matches Err(e) && e@ == parameter_error(BindErrorKind::DuplicateParameter, args@[i].spec_name()@),
                None => r matches Ok(reader) && reader.spec_args() == args@
                    && reader.spec_consumed() == Seq::new(args@.len(), |i: int| false),
            },
    {
        let mut index: usize = 0;
        while index < args.len()
            invariant
                index <= args@.len(),
                forall|k: int| 0 <= k < index ==> !#[trigger] repeats_earlier_name(args@, k),
            decreases args@.len() - index,
        {
            let mut previous: usize = 0;
            while previous < index
                invariant
                    index < args@.len(),
                    previous <= index,
                    forall|k: int| 0 <= k < index ==> !#[trigger] repeats_earlier_name(args@, k),
                    forall|j: int| 0 <= j < previous ==> #[trigger] args@[j].spec_name()@ != args@[index as int].spec_name()@,
                decreases index - previous,
            {
                if str_eq(args[previous].name(), args[index].name()) {
                    proof {
                        assert(repeats_earlier_name(args@, index as int));
                        let i = first_duplicate(args@)->0;
                        if i < index {
                            assert(!repeats_earlier_name(args@, i));
                        } else if i > index {
                            assert(!repeats_earlier_name(args@, index as int));
                        }
                    }
                    return Err(BindError::new(BindErrorKind::DuplicateParameter).with_parameter(args[index].name()));
                }
                previous += 1;
            }
            index += 1;
        }
        let consumed = vec_of_false(args.len());
        proof {
            assert(first_duplicate(args@) is None);
            assert forall|i: int, j: int| 0 <= i < j < args@.len() implies #[trigger] args@[i].spec_name()@ != #[trigger] args@[j].spec_name()@ by {
                assert(!repeats_earlier_name(args@, j));
            }
        }
        Ok(ArgumentReader { args, consumed })
    }

    /// Finds the position of the argument named `name`.
    fn position(&self, name: &str) -> (r: Option<usize>)
        ensures
            match r {
                Some(k) => name_index(self.args@, name@) == Some(k as int),
                None => name_index(self.args@, name@) is None,
            },
    {
        proof {
            use_type_invariant(self);
        }
        let mut index: usize = 0;
        while index < self.args.len()
            invariant
                self.wf(),
                index <= self.args@.len(),
                forall|k: int| 0 <= k < index ==> #[trigger] self.args@[k].spec_name()@ != name@,
            decreases self.args@.len() - index,
        {
            if str_eq(self.args[index].name(), name) {
                proof {
                    let i = name_index(self.args@, name@)->0;
                    if i != index {
                        assert(names_distinct(self.args@));
                        if i < index {
                            assert(self.args@[i].spec_name()@ != self.args@[index as int].spec_name()@);
                        } else {
                            assert(self.args@[index as int].spec_name()@ != self.args@[i].spec_name()@);
                        }
                    }
                }
                return Some(index);
            }
            index += 1;
        }
        None
    }

    /// Takes a present parameter once, or returns `None` when it is absent.
    fn take_optional(&mut self, name: &str) -> (r: Result<Option<ValidationArgument<'a>>, BindError>)
        ensures
            final(self).spec_args() == old(self).spec_args(),
            match take_result(old(self).spec_args(), old(self).spec_consumed(), name@) {
                Err(kind) => r matches Err(e) && e@ == parameter_error(kind, name@)
                    && final(self).spec_consumed() == old(self).spec_consumed(),
                Ok(None) => r == Ok::<Option<ValidationArgument<'a>>, BindError>(None)
                    && final(self).spec_consumed() == old(self).spec_consumed(),
                Ok(Some(i)) => r == Ok::<Option<ValidationArgument<'a>>, BindError>(Some(old(self).spec_args()[i].spec_value()))
                    && final(self).spec_consumed() == old(self).spec_consumed().update(i, true),
            },
    {
        proof {
            use_type_invariant(&*self);
        }
        let index = match self.position(name) {
            Some(index) => index,
            None => return Ok(None),
        };
        assert(name_index(self.args@, name@) == Some(index as int));
        if self.consumed[index] {
            return Err(BindError::new(BindErrorKind::ParameterAlreadyConsumed).with_parameter(name));
        }
        let mut consumed = self.consumed.clone();
        assert(consumed@ =~= self.consumed@);
        consumed.set(index, true);
        self.consumed = consumed;
        Ok(Some(self.args[index].value()))
    }

    /// Reads and converts an optional or required unsigned 32-bit parameter.
    fn u32_value(&mut self, name: &str, required: bool) -> (r: Result<Option<u32>, BindError>)
        ensures
            final(self).spec_args() == old(self).spec_args(),
            final(self).spec_consumed() == match take_result(old(self).spec_args(), old(self).spec_consumed(), name@) {
                Ok(Some(i)) => old(self).spec_consumed().update(i, true),
                _ => old(self).spec_consumed(),
            },
            match take_result(old(self).spec_args(), old(self).spec_consumed(), name@) {
                Err(kind) => r matches Err(e) && e@ == parameter_error(kind, name@),
                Ok(None) => if required {
                    r matches Err(e) && e@ == parameter_error(BindErrorKind::MissingParameter, name@)
                } else {
                    r == Ok::<Option<u32>, BindError>(None)
                },
                Ok(Some(i)) => match decode_u32(old(self).spec_args()[i].spec_value()) {
                    Ok(v) => r == Ok::<Option<u32>, BindError>(Some(v)),
                    Err(kind) => r matches Err(e) && e@ == parameter_error(kind, name@),
                },
            },
    {
        let value = match self.take_optional(name) {
            Err(error) => return Err(error),
            Ok(None) => {
                if required {
                    return Err(BindError::new(BindErrorKind::MissingParameter).with_parameter(name));
                }
                return Ok(None);
            },
            Ok(Some(value)) => value,
        };
        match value {
            ValidationArgument::Unsigned(value) => {
                if value <= 0xffff_ffffu128 {
                    Ok(Some(value as u32))
                } else {
                    Err(Self::range_error(name))
                }
            },
            ValidationArgument::Integer(value) => {
                if 0 <= value && value <= 0xffff_ffffi128 {
                    Ok(Some(value as u32))
                } else {
                    Err(Self::range_error(name))
                }
            },
            _ => Err(Self::type_error(name)),
        }
    }

    /// Reads a required unsigned 32-bit integer once.
    ///
    /// # Errors
    ///
    /// Returns `MissingParameter` when the parameter is absent,
    /// `ParameterAlreadyConsumed` when it was previously read,
    /// `ParameterTypeMismatch` when it is not an integer, or
    /// `ParameterOutOfRange` when its value cannot be represented as a `u32`.
    pub fn required_u32(&mut self, name: &str) -> (r: Result<u32, BindError>)
        ensures
            final(self).spec_args() == old(self).spec_args(),
            final(self).spec_consumed() == consumed_after(old(self).spec_args(), old(self).spec_consumed(), name@),
            match take_result(old(self).spec_args(), old(self).spec_consumed(), name@) {
                Err(kind) => r matches Err(e) && e@ == parameter_error(kind, name@),
                Ok(None) => r matches Err(e) && e@ == parameter_error(BindErrorKind::MissingParameter, name@),
                Ok(Some(i)) => match decode_u32(old(self).spec_args()[i].spec_value()) {
                    Ok(v) => r == Ok::<u32, BindError>(v),
                    Err(kind) => r matches Err(e) && e@ == parameter_error(kind, name@),
                },
            },
    {
        proof {
            use_type_invariant(&*self);
        }
        match self.u32_value(name, true) {
            Ok(Some(value)) => Ok(value),
            Ok(None) => Err(BindError::new(BindErrorKind::MissingParameter).with_parameter(name)),
            Err(error) => Err(error),
        }
    }

    /// Reads an optional unsigned 32-bit integer once.
    ///
    /// # Errors
    ///
    /// Returns `ParameterAlreadyConsumed` when the present parameter was
    /// previously read, `ParameterTypeMismatch` when it is not an integer, or
    /// `ParameterOutOfRange` when its value cannot be represented as a `u32`.
    pub fn optional_u32(&mut self, name: &str) -> (r: Result<Option<u32>, BindError>)
        ensures
            final(self).spec_args() == old(self).spec_args(),
            final(self).spec_consumed() == consumed_after(old(self).spec_args(), old(self).spec_consumed(), name@),
            match take_result(old(self).spec_args(), old(self).spec_consumed(), name@) {
                Err(kind) => r matches Err(e) && e@ == parameter_error(kind, name@),
                Ok(None) => r == Ok::<Option<u32>, BindError>(None),
                Ok(Some(i)) => match decode_u32(old(self).spec_args()[i].spec_value()) {
                    Ok(v) => r == Ok::<Option<u32>, BindError>(Some(v)),
                    Err(kind) => r matches Err(e) && e@ == parameter_error(kind, name@),
                },
            },
    {
        proof {
            use_type_invariant(&*self);
        }
        self.u32_value(name, false)
    }

    /// Reads a required string argument once.
    ///
    /// # Errors
    ///
    /// Returns `MissingParameter` when the parameter is absent,
    /// `ParameterAlreadyConsumed` when it was previously read, or
    /// `ParameterTypeMismatch` when it is not a string.
    pub fn required_str(&mut self, name: &str) -> (r: Result<&'a str, BindError>)
        ensures
            final(self).spec_args() == old(self).spec_args(),
            final(self).spec_consumed() == consumed_after(old(self).spec_args(), old(self).spec_consumed(), name@),
            match take_result(old(self).spec_args(), old(self).spec_consumed(), name@) {
                Err(kind) => r matches Err(e) && e@ == parameter_error(kind, name@),
                Ok(None) => r matches Err(e) && e@ == parameter_error(BindErrorKind::MissingParameter, name@),
                Ok(Some(i)) => match old(self).spec_args()[i].spec_value() {
                    ValidationArgument::String(text) => r == Ok::<&'a str, BindError>(text),
                    _ => r matches Err(e) && e@ == parameter_error(BindErrorKind::ParameterTypeMismatch, name@),
                },
            },
    {
        proof {
            use_type_invariant(&*self);
        }
        match self.take_optional(name) {
            Err(error) => Err(error),
            Ok(None) => Err(BindError::new(BindErrorKind::MissingParameter).with_parameter(name)),
            Ok(Some(ValidationArgument::String(value))) => Ok(value),
            Ok(Some(_)) => Err(Self::type_error(name)),
        }
    }

    /// Reads an optional boolean argument once.
    ///
    /// # Errors
    ///
    /// Returns `ParameterAlreadyConsumed` when the present parameter was
    /// previously read or `ParameterTypeMismatch` when it is not a boolean.
    pub fn optional_bool(&mut self, name: &str) -> (r: Result<Option<bool>, BindError>)
        ensures
            final(self).spec_args() == old(self).spec_args(),
            final(self).spec_consumed() == consumed_after(old(self).spec_args(), old(self).spec_consumed(), name@),
            match take_result(old(self).spec_args(), old(self).spec_consumed(), name@) {
                Err(kind) => r matches Err(e) && e@ == parameter_error(kind, name@),
                Ok(None) => r == Ok::<Option<bool>, BindError>(None),
                Ok(Some(i)) => match old(self).spec_args()[i].spec_value() {
                    ValidationArgument::Bool(value) => r == Ok::<Option<bool>, BindError>(Some(value)),
                    _ => r matches Err(e) && e@ == parameter_error(BindErrorKind::ParameterTypeMismatch, name@),
                },
            },
    {
        proof {
            use_type_invariant(&*self);
        }
        match self.take_optional(name) {
            Err(error) => Err(error),
            Ok(None) => Ok(None),
            Ok(Some(ValidationArgument::Bool(value))) => Ok(Some(value)),
            Ok(Some(_)) => Err(Self::type_error(name)),
        }
    }

    /// Rejects every argument which was not consumed by a typed reader.
    ///
    /// # Errors
    ///
    /// Returns `UnknownParameter` for the first argument that was never read.
    pub fn finish(&self) -> (r: Result<(), BindError>)
        ensures
            match first_unconsumed(self.spec_consumed()) {
                Some(i) => r matches Err(e) && e@ == parameter_error(BindErrorKind::UnknownParameter, self.spec_args()[i].spec_name()@),
                None => r is Ok,
            },
    {
        proof {
            use_type_invariant(self);
        }
        let mut index: usize = 0;
        while index < self.args.len()
            invariant
                self.wf(),
                index <= self.args@.len(),
                forall|k: int| 0 <= k < index ==> #[trigger] self.consumed@[k],
            decreases self.args@.len() - index,
        {
            if !self.consumed[index] {
                proof {
                    let i = first_unconsumed(self.consumed@)->0;
                    if i < index {
                        assert(self.consumed@[i]);
                    } else if i > index {
                        assert(self.consumed@[index as int]);
                    }
                }
                return Err(BindError::new(BindErrorKind::UnknownParameter).with_parameter(self.args[index].name()));
            }
            index += 1;
        }
        Ok(())
    }

    /// Builds a type-mismatch error without retaining the rejected value.
    fn type_error(name: &str) -> (r: BindError)
        ensures
            r@ == parameter_error(BindErrorKind::ParameterTypeMismatch, name@),
    {
        BindError::new(BindErrorKind::ParameterTypeMismatch).with_parameter(name)
    }

    /// Builds a range error without retaining the rejected value.
    fn range_error(name: &str) -> (r: BindError)
        ensures
            r@ == parameter_error(BindErrorKind::ParameterOutOfRange, name@),
    {
        BindError::new(BindErrorKind::ParameterOutOfRange).with_parameter(name)
    }

    /// Describes the reader by its argument count only, so argument names and
    /// values stay private.
    pub fn redacted(&self) -> (r: String)
        ensures
            r@ == count_text("ArgumentReader"@, "argument_count"@, self.spec_args().len(), false),
    {
        describe_count("ArgumentReader", "argument_count", self.args.len(), false)
    }
}

/// A vector of `len` `false` flags.
fn vec_of_false(len: usize) -> (r: Vec<bool>)
    ensures
        r@ == Seq::new(len as nat, |i: int| false),
{
    let mut flags: Vec<bool> = Vec::new();
    while flags.len() < len
        invariant
            flags@.len() <= len,
            forall|i: int| 0 <= i < flags@.len() ==> !#[trigger] flags@[i],
        decreases len - flags@.len(),
    {
        flags.push(false);
    }
    assert(flags@ =~= Seq::new(len as nat, |i: int| false));
    flags
}

} // verus!
