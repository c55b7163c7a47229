use vstd::prelude::*;

use crate::ids::{ConcreteTypeId, GenericTypeId};
use crate::lib_func::{SignatureSpecializationContext, SpecializationError};
use crate::program::GenericArg;

verus! {

/// A registration of a generic type id (taking no type arguments) to its
/// concrete handle.
#[derive(Clone, Copy, Debug, PartialEq, Eq, Structural)]
pub struct TypeEntry {
    pub generic_id: GenericTypeId,
    pub concrete: ConcreteTypeId,
}

/// A registration of a wrapped form: applying `wrapper` to `inner` resolves
/// to `wrapped`.
#[derive(Clone, Copy, Debug, PartialEq, Eq, Structural)]
pub struct WrapEntry {
    pub wrapper: GenericTypeId,
    pub inner: ConcreteTypeId,
    pub wrapped: ConcreteTypeId,
}

/// The concrete handle the table resolves `id` to: the first entry declared
/// for `id` wins, and an id declared by no entry fails with `UnsupportedId`.
pub open spec fn lookup_type(entries: Seq<TypeEntry>, id: GenericTypeId) -> Result<
    ConcreteTypeId,
    SpecializationError,
>
    decreases entries.len(),
{
    if entries.len() == 0 {
        Err(SpecializationError::UnsupportedId)
    } else if entries[0].generic_id == id {
        Ok(entries[0].concrete)
    } else {
        lookup_type(entries.drop_first(), id)
    }
}

/// The wrapped handle the table resolves `(wrapper, inner)` to, first match
/// winning as in `lookup_type`.
pub open spec fn lookup_wrapped(
    entries: Seq<WrapEntry>,
    wrapper: GenericTypeId,
    inner: ConcreteTypeId,
) -> Result<ConcreteTypeId, SpecializationError>
    decreases entries.len(),
{
    if entries.len() == 0 {
        Err(SpecializationError::UnsupportedId)
    } else if entries[0].wrapper == wrapper && entries[0].inner == inner {
        Ok(entries[0].wrapped)
    } else {
        lookup_wrapped(entries.drop_first(), wrapper, inner)
    }
}

/// A table-driven type context: a finite list of declared types and declared
/// wrapped forms, resolved by linear search. It accepts only empty type
/// argument lists, as the arithmetic library functions supply.
pub struct SimpleContext {
    pub types: Vec<TypeEntry>,
    pub wrapped_types: Vec<WrapEntry>,
}

impl SimpleContext {
    /// A context with nothing declared: every resolution fails.
    pub fn new() -> (r: SimpleContext)
        ensures
            r.types@ == Seq::<TypeEntry>::empty(),
            r.wrapped_types@ == Seq::<WrapEntry>::empty(),
    {
        SimpleContext { types: Vec::new(), wrapped_types: Vec::new() }
    }

    /// Declare that `generic_id` (with no type arguments) resolves to
    /// `concrete`.
    pub fn declare_type(&mut self, generic_id: GenericTypeId, concrete: ConcreteTypeId)
        ensures
            final(self).types@ == old(self).types@.push(TypeEntry { generic_id, concrete }),
            final(self).wrapped_types@ == old(self).wrapped_types@,
    {
        self.types.push(TypeEntry { generic_id, concrete });
    }

    /// Declare that wrapping `inner` with the marker `wrapper` resolves to
    /// `wrapped`.
    pub fn declare_wrapped_type(
        &mut self,
        wrapper: GenericTypeId,
        inner: ConcreteTypeId,
        wrapped: ConcreteTypeId,
    )
        ensures
            final(self).wrapped_types@ == old(self).wrapped_types@.push(
                WrapEntry { wrapper, inner, wrapped },
            ),
            final(self).types@ == old(self).types@,
    {
        self.wrapped_types.push(WrapEntry { wrapper, inner, wrapped });
    }
}

impl SignatureSpecializationContext for SimpleContext {
    open spec fn type_of(&self, id: GenericTypeId, args: Seq<GenericArg>) -> Result<
        ConcreteTypeId,
        SpecializationError,
    > {
        if args.len() == 0 {
            lookup_type(self.types@, id)
        } else {
            Err(SpecializationError::UnsupportedId)
        }
    }

    open spec fn wrapped_type_of(&self, wrapper: GenericTypeId, ty: ConcreteTypeId) -> Result<
        ConcreteTypeId,
        SpecializationError,
    > {
        lookup_wrapped(self.wrapped_types@, wrapper, ty)
    }

    fn get_concrete_type(&self, id: GenericTypeId, args: &Vec<GenericArg>) -> (r: Result<
        ConcreteTypeId,
        SpecializationError,
    >) {
        if args.len() != 0 {
            return Err(SpecializationError::UnsupportedId);
        }
        let n = self.types.len();
        let mut i: usize = 0;
        proof {
            assert(self.types@.skip(0) =~= self.types@);
        }
        while i < n
            invariant
                i <= n,
                n == self.types@.len(),
                args@.len() == 0,
                lookup_type(self.types@.skip(i as int), id) == lookup_type(self.types@, id),
            decreases n - i,
        {
            let e = self.types[i];
            proof {
                assert(self.types@.skip(i as int)[0] == self.types@[i as int]);
            }
            if e.generic_id == id {
                proof {
                    assert(lookup_type(self.types@.skip(i as int), id) == Ok::<
                        ConcreteTypeId,
                        SpecializationError,
                    >(e.concrete));
                }
                return Ok(e.concrete);
            }
            proof {
                assert(self.types@.skip(i as int).drop_first() =~= self.types@.skip(i as int + 1));
            }
            i += 1;
        }
        proof {
            assert(self.types@.skip(n as int) =~= Seq::<TypeEntry>::empty());
        }
        Err(SpecializationError::UnsupportedId)
    }

    fn get_wrapped_concrete_type(&self, wrapper: GenericTypeId, ty: ConcreteTypeId) -> (r: Result<
        ConcreteTypeId,
        SpecializationError,
    >) {
        let n = self.wrapped_types.len();
        let mut i: usize = 0;
        proof {
            assert(self.wrapped_types@.skip(0) =~= self.wrapped_types@);
        }
        while i < n
            invariant
                i <= n,
                n == self.wrapped_types@.len(),
                lookup_wrapped(self.wrapped_types@.skip(i as int), wrapper, ty) == lookup_wrapped(
                    self.wrapped_types@,
                    wrapper,
                    ty,
                ),
            decreases n - i,
        {
            let e = self.wrapped_types[i];
            proof {
                assert(self.wrapped_types@.skip(i as int)[0] == self.wrapped_types@[i as int]);
            }
            if e.wrapper == wrapper && e.inner == ty {
                proof {
                    assert(lookup_wrapped(self.wrapped_types@.skip(i as int), wrapper, ty) == Ok::<
                        ConcreteTypeId,
                        SpecializationError,
                    >(e.wrapped));
                }
                return Ok(e.wrapped);
            }
            proof {
                assert(self.wrapped_types@.skip(i as int).drop_first() =~= self.wrapped_types@.skip(
                    i as int + 1,
                ));
            }
            i += 1;
        }
        proof {
            assert(self.wrapped_types@.skip(n as int) =~= Seq::<WrapEntry>::empty());
        }
        Err(SpecializationError::UnsupportedId)
    }
}

} // verus!
