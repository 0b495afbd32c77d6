//! Ordered, shape-checked dependency values for one validation call.

use vstd::prelude::*;

use super::shape_accepts;
use super::DependencySpec;
use super::ExecutionError;
use super::ExecutionErrorKind;
use super::ValidationValue;
use crate::report::SegmentView;
use crate::internal::text::count_text;
use crate::internal::text::describe_count;
use crate::ValidationPath;

verus! {

/// Borrowed dependency slots used during a synchronous validation call.
pub struct BoundValidationContext<'a> {
    /// Values stored in signature slot order.
    values: &'a [ValidationValue<'a>],
    /// Optional model paths stored in the same slot order as `values`.
    paths: Option<&'a [ValidationPath]>,
    /// The root path, reported for slots without a model path.
    root: ValidationPath,
}

/// How one present or missing value fails a dependency slot, if it does: a
/// missing value fails a required slot, and a present value fails a slot
/// whose shape does not accept it.
pub open spec fn slot_failure(value: ValidationValue, spec: DependencySpec) -> Option<ExecutionErrorKind> {
    if value is Missing {
        if !spec.spec_optional() {
            Some(ExecutionErrorKind::MissingRequiredDependencyValue)
        } else {
            None
        }
    } else if !shape_accepts(spec.spec_input(), value) {
        Some(ExecutionErrorKind::DependencyTypeMismatch)
    } else {
        None
    }
}

/// The first of the first `n` slots whose value fails its declaration.
pub open spec fn first_failing_slot(values: Seq<ValidationValue>, specs: Seq<DependencySpec>, n: int) -> Option<int>
    decreases n,
{
    if n <= 0 {
        None
    } else {
        match first_failing_slot(values, specs, n - 1) {
            Some(i) => Some(i),
            None => if slot_failure(values[n - 1], specs[n - 1]) is Some {
                Some(n - 1)
            } else {
                None
            },
        }
    }
}

proof fn lemma_first_failing_slot(values: Seq<ValidationValue>, specs: Seq<DependencySpec>, n: int)
    requires
        0 <= n,
    ensures
        first_failing_slot(values, specs, n) is None <==> forall|i: int| 0 <= i < n ==> #[trigger] slot_failure(values[i], specs[i]) is None,
        first_failing_slot(values, specs, n) matches Some(i) ==> 0 <= i < n && slot_failure(values[i], specs[i]) is Some,
    decreases n,
{
    if n > 0 {
        lemma_first_failing_slot(values, specs, n - 1);
    }
}

/// Which dependency slot a check reports, and how: the first slot, in
/// signature order, that holds either a missing value for a required slot or
/// a present value its input shape does not accept. Being optional excuses
/// only a missing value: a present value of the wrong shape is a type
/// mismatch in an optional slot too. When no slot is at fault the check
/// passes.
pub proof fn lemma_first_rejected_slot(values: Seq<ValidationValue>, specs: Seq<DependencySpec>, i: int)
    requires
        values.len() == specs.len(),
        0 <= i <= values.len(),
        forall|j: int| #![trigger values[j]] 0 <= j < i ==> {
            ||| values[j] is Missing && specs[j].spec_optional()
            ||| !(values[j] is Missing) && shape_accepts(specs[j].spec_input(), values[j])
        },
    ensures
        i == values.len() ==> first_failing_slot(values, specs, values.len() as int) is None,
        i < values.len() && values[i] is Missing && !specs[i].spec_optional() ==> {
            &&& first_failing_slot(values, specs, values.len() as int) == Some(i)
            &&& slot_failure(values[i], specs[i]) == Some(ExecutionErrorKind::MissingRequiredDependencyValue)
        },
        i < values.len() && !(values[i] is Missing) && !shape_accepts(specs[i].spec_input(), values[i]) ==> {
            &&& first_failing_slot(values, specs, values.len() as int) == Some(i)
            &&& slot_failure(values[i], specs[i]) == Some(ExecutionErrorKind::DependencyTypeMismatch)
        },
{
    assert forall|j: int| 0 <= j < i implies #[trigger] slot_failure(values[j], specs[j]) is None by {
        assert(values[j] == values[j]);
    }
    lemma_first_failing_slot(values, specs, i);
    if i < values.len() && slot_failure(values[i], specs[i]) is Some {
        assert(first_failing_slot(values, specs, i + 1) == Some(i));
        lemma_first_failing_prefix(values, specs, i + 1, values.len() as int);
    }
}

/// A check of dependency slots passes exactly when every slot holds a value
/// it admits: a missing value only in an optional slot, and a present value
/// only of a shape the slot accepts, whether the slot is optional or not.
pub proof fn lemma_slots_pass(values: Seq<ValidationValue>, specs: Seq<DependencySpec>)
    requires
        values.len() == specs.len(),
    ensures
        first_failing_slot(values, specs, values.len() as int) is None <==> forall|j: int| #![trigger values[j]] 0 <= j < values.len() ==> {
            ||| values[j] is Missing && specs[j].spec_optional()
            ||| !(values[j] is Missing) && shape_accepts(specs[j].spec_input(), values[j])
        },
{
    lemma_first_failing_slot(values, specs, values.len() as int);
    if first_failing_slot(values, specs, values.len() as int) is None {
        assert forall|j: int| 0 <= j < values.len() implies {
            ||| values[j] is Missing && specs[j].spec_optional()
            ||| !(values[j] is Missing) && shape_accepts(specs[j].spec_input(), values[j])
        } by {
            assert(slot_failure(values[j], specs[j]) is None);
        }
    } else {
        let i = first_failing_slot(values, specs, values.len() as int)->0;
        assert(slot_failure(values[i], specs[i]) is Some);
    }
}

impl<'a> BoundValidationContext<'a> {
    #[verifier::type_invariant]
    spec fn well_formed(self) -> bool {
        &&& self.root@ == Seq::<SegmentView>::empty()
        &&& self.paths matches Some(paths) ==> paths@.len() == self.values@.len()
    }

    /// The values in slot order.
    pub closed spec fn spec_values(self) -> Seq<ValidationValue<'a>> {
        self.values@
    }

    /// Whether model paths were supplied.
    pub closed spec fn has_paths(self) -> bool {
        self.paths is Some
    }

    /// The path reported for slot `index`: its model path when paths were
    /// supplied, else the root path.
    pub closed spec fn slot_path(self, index: int) -> Seq<SegmentView> {
        match self.paths {
            Some(paths) => paths@[index]@,
            None => Seq::empty(),
        }
    }

    /// Describes the context by its slot count only, so slot values stay
    /// private.
    pub fn redacted(&self) -> (r: String)
        ensures
            r@ == count_text("BoundValidationContext"@, "slot_count"@, self.spec_values().len(), false),
    {
        describe_count("BoundValidationContext", "slot_count", self.values.len(), false)
    }

    /// Creates a context with root paths for each dependency slot.
    pub fn new(values: &'a [ValidationValue<'a>]) -> (r: Self)
        ensures
            r.spec_values() == values@,
            !r.has_paths(),
            forall|i: int| 0 <= i < values@.len() ==> #[trigger] r.slot_path(i) == Seq::<SegmentView>::empty(),
    {
        BoundValidationContext { values, paths: None, root: ValidationPath::root() }
    }

    /// Creates a context with model-provided relative dependency paths.
    ///
    /// # Errors
    ///
    /// Returns an adapter contract error when the two slices differ in length.
    pub fn new_with_paths(values: &'a [ValidationValue<'a>], paths: &'a [ValidationPath]) -> (r: Result<Self, ExecutionError>)
        ensures
            values@.len() != paths@.len() ==> (r matches Err(e) && e@ == ExecutionError::bare(ExecutionErrorKind::AdapterContractViolation)),
            values@.len() == paths@.len() ==> (r matches Ok(c) && c.spec_values() == values@ && c.has_paths()
                && forall|i: int| 0 <= i < values@.len() ==> #[trigger] c.slot_path(i) == paths@[i]@),
    {
        if values.len() != paths.len() {
            return Err(ExecutionError::new(ExecutionErrorKind::AdapterContractViolation));
        }
        Ok(BoundValidationContext { values, paths: Some(paths), root: ValidationPath::root() })
    }

    /// Returns the value at an ordered dependency slot.
    ///
    /// # Errors
    ///
    /// Returns an adapter contract error for an invalid slot index.
    pub fn value(&self, index: usize) -> (r: Result<ValidationValue<'a>, ExecutionError>)
        ensures
            index < self.spec_values().len() ==> r == Ok::<ValidationValue<'a>, ExecutionError>(self.spec_values()[index as int]),
            index >= self.spec_values().len() ==> (r matches Err(e) && e@ == ExecutionError::bare(ExecutionErrorKind::AdapterContractViolation)),
    {
        if index < self.values.len() {
            Ok(self.values[index])
        } else {
            Err(ExecutionError::new(ExecutionErrorKind::AdapterContractViolation))
        }
    }

    /// Returns the path at an ordered dependency slot.
    ///
    /// # Errors
    ///
    /// Returns an adapter contract error for an invalid slot index.
    pub fn dependency_path(&self, index: usize) -> (r: Result<&ValidationPath, ExecutionError>)
        ensures
            index < self.spec_values().len() ==> (r matches Ok(path) && path@ == self.slot_path(index as int)),
            index >= self.spec_values().len() ==> (r matches Err(e) && e@ == ExecutionError::bare(ExecutionErrorKind::AdapterContractViolation)),
    {
        proof {
            use_type_invariant(self);
        }
        match self.paths {
            Some(paths) => {
                if index < paths.len() {
                    Ok(&paths[index])
                } else {
                    Err(ExecutionError::new(ExecutionErrorKind::AdapterContractViolation))
                }
            },
            None => {
                if index < self.values.len() {
                    Ok(&self.root)
                } else {
                    Err(ExecutionError::new(ExecutionErrorKind::AdapterContractViolation))
                }
            },
        }
    }

    /// Downcasts a required dependency to its exact type.
    ///
    /// # Errors
    ///
    /// Returns a slot error for an invalid index, a missing-value error for
    /// the missing marker, and a type error for text or a value of another
    /// type.
    pub fn typed<T: 'static>(&self, index: usize) -> (r: Result<&'a T, ExecutionError>)
        ensures
            index >= self.spec_values().len() ==> (r matches Err(e) && e@.0 == ExecutionErrorKind::AdapterContractViolation),
            index < self.spec_values().len() ==> match self.spec_values()[index as int] {
                ValidationValue::Missing => r matches Err(e) && e@.0 == ExecutionErrorKind::MissingRequiredDependencyValue,
                ValidationValue::Text(_) => r matches Err(e) && e@.0 == ExecutionErrorKind::DependencyTypeMismatch,
                ValidationValue::Typed(_) => r matches Err(e) ==> e@.0 == ExecutionErrorKind::DependencyTypeMismatch,
            },
            r matches Err(e) ==> e@.1 == Seq::<SegmentView>::empty() && e@.2 is None && e@.3 is None,
    {
        match self.value(index)? {
            ValidationValue::Typed(value) => match value.downcast::<T>() {
                Some(value) => Ok(value),
                None => Err(ExecutionError::new(ExecutionErrorKind::DependencyTypeMismatch)),
            },
            ValidationValue::Missing => Err(ExecutionError::new(ExecutionErrorKind::MissingRequiredDependencyValue)),
            ValidationValue::Text(_) => Err(ExecutionError::new(ExecutionErrorKind::DependencyTypeMismatch)),
        }
    }

    /// Downcasts an optional dependency, treating only `Missing` as `None`.
    ///
    /// # Errors
    ///
    /// Returns a shape or slot error. A wrong concrete type is never treated
    /// as an absent optional value.
    pub fn optional_typed<T: 'static>(&self, index: usize) -> (r: Result<Option<&'a T>, ExecutionError>)
        ensures
            index >= self.spec_values().len() ==> (r matches Err(e) && e@.0 == ExecutionErrorKind::AdapterContractViolation),
            index < self.spec_values().len() ==> match self.spec_values()[index as int] {
                ValidationValue::Missing => r matches Ok(v) && v is None,
                ValidationValue::Text(_) => r matches Err(e) && e@.0 == ExecutionErrorKind::DependencyTypeMismatch,
                ValidationValue::Typed(_) => (r matches Ok(v) && v is Some) || (r matches Err(e) && e@.0 == ExecutionErrorKind::DependencyTypeMismatch),
            },
            r matches Err(e) ==> e@.1 == Seq::<SegmentView>::empty() && e@.2 is None && e@.3 is None,
    {
        match self.value(index)? {
            ValidationValue::Missing => Ok(None),
            ValidationValue::Typed(value) => match value.downcast::<T>() {
                Some(value) => Ok(Some(value)),
                None => Err(ExecutionError::new(ExecutionErrorKind::DependencyTypeMismatch)),
            },
            ValidationValue::Text(_) => Err(ExecutionError::new(ExecutionErrorKind::DependencyTypeMismatch)),
        }
    }

    /// Borrows a required text dependency.
    ///
    /// # Errors
    ///
    /// Returns a shape, missing-value, or slot error.
    pub fn text(&self, index: usize) -> (r: Result<&'a str, ExecutionError>)
        ensures
            index >= self.spec_values().len() ==> (r matches Err(e) && e@.0 == ExecutionErrorKind::AdapterContractViolation),
            index < self.spec_values().len() ==> match self.spec_values()[index as int] {
                ValidationValue::Text(text) => r == Ok::<&'a str, ExecutionError>(text),
                ValidationValue::Missing => r matches Err(e) && e@.0 == ExecutionErrorKind::MissingRequiredDependencyValue,
                ValidationValue::Typed(_) => r matches Err(e) && e@.0 == ExecutionErrorKind::DependencyTypeMismatch,
            },
            r matches Err(e) ==> e@.1 == Seq::<SegmentView>::empty() && e@.2 is None && e@.3 is None,
    {
        match self.value(index)? {
            ValidationValue::Text(value) => Ok(value),
            ValidationValue::Missing => Err(ExecutionError::new(ExecutionErrorKind::MissingRequiredDependencyValue)),
            ValidationValue::Typed(_) => Err(ExecutionError::new(ExecutionErrorKind::DependencyTypeMismatch)),
        }
    }

    /// Checks all bound values against their declared dependency slots.
    ///
    /// # Errors
    ///
    /// Returns an adapter contract error when the slot counts differ, else
    /// the failure of the first slot in signature order, with that slot's
    /// name and path. Error metadata does not include raw dependency values.
    pub fn check_specs(&self, specs: &[DependencySpec]) -> (r: Result<(), ExecutionError>)
        ensures
            self.spec_values().len() != specs@.len() ==> (r matches Err(e) && e@ == ExecutionError::bare(ExecutionErrorKind::AdapterContractViolation)),
            self.spec_values().len() == specs@.len() ==> match first_failing_slot(self.spec_values(), specs@, specs@.len() as int) {
                None => r is Ok,
                Some(i) => r matches Err(e) && e@ == (
                    slot_failure(self.spec_values()[i], specs@[i])->0,
                    self.slot_path(i),
                    None::<crate::ValidatorId>,
                    Some(specs@[i].spec_name()@),
                ),
            },
    {
        proof {
            use_type_invariant(self);
        }
        if self.values.len() != specs.len() {
            return Err(ExecutionError::new(ExecutionErrorKind::AdapterContractViolation));
        }
        let mut index: usize = 0;
        while index < specs.len()
            invariant
                self.values@.len() == specs@.len(),
                index <= specs@.len(),
                first_failing_slot(self.values@, specs@, index as int) is None,
            decreases specs@.len() - index,
        {
            let spec = specs[index];
            let value = self.values[index];
            let error_kind = if value.is_missing() {
                if !spec.optional() {
                    ExecutionErrorKind::MissingRequiredDependencyValue
                } else {
                    index += 1;
                    continue;
                }
            } else if !spec.input().accepts(value) {
                ExecutionErrorKind::DependencyTypeMismatch
            } else {
                index += 1;
                continue;
            };
            let path = match self.dependency_path(index) {
                Ok(path) => path.clone(),
                Err(error) => return Err(error),
            };
            proof {
                lemma_first_failing_slot(self.values@, specs@, specs@.len() as int);
                lemma_first_failing_slot(self.values@, specs@, index as int);
                assert(first_failing_slot(self.values@, specs@, index + 1) == Some(index as int));
                lemma_first_failing_prefix(self.values@, specs@, index as int + 1, specs@.len() as int);
            }
            return Err(ExecutionError::new(error_kind).with_dependency(spec.name()).with_path(path));
        }
        Ok(())
    }
}

/// Once a slot fails among the first `n`, later slots do not change which
/// slot fails first.
proof fn lemma_first_failing_prefix(values: Seq<ValidationValue>, specs: Seq<DependencySpec>, n: int, m: int)
    requires
        0 <= n <= m,
        first_failing_slot(values, specs, n) is Some,
    ensures
        first_failing_slot(values, specs, m) == first_failing_slot(values, specs, n),
    decreases m - n,
{
    if n < m {
        lemma_first_failing_prefix(values, specs, n, m - 1);
    }
}

} // verus!
