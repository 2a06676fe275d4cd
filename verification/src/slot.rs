//! Where an instance keeps its context, which is made on first need.
use vstd::prelude::*;

verus! {

/// The context `X` of an instance, or the mapping context `M` out of which it is made.
pub enum ContextSlot<M, X> {
    /// The context is yet to be made.
    Pending(M),
    /// The context is there.
    Ready(X),
    /// The mapping context was used up, and no context came of it.
    Spent,
}

impl<M, X> ContextSlot<M, X> {
    /// Whether the calls of a guest can lead from here to `later`: a context that is there stays
    /// there, and a mapping context that is gone does not come back.
    pub open spec fn leads_to(self, later: ContextSlot<M, X>) -> bool {
        &&& self is Ready ==> later is Ready
        &&& self is Spent ==> later is Spent
    }

    /// Whether the context is there.
    pub fn is_ready(&self) -> (ready: bool)
        ensures
            ready == (*self is Ready),
    {
        match self {
            ContextSlot::Ready(_) => true,
            _ => false,
        }
    }

    /// Makes the context with `make` if it is yet to be made. If `make` fails, the mapping
    /// context is gone.
    pub fn ensure_with<E, F: FnOnce(M) -> Result<X, E>>(&mut self, make: F) -> (result: Result<
        (),
        E,
    >)
        requires
            !(*old(self) is Spent),
            *old(self) matches ContextSlot::Pending(mapping) ==> make.requires((mapping,)),
        ensures
            match *old(self) {
                ContextSlot::Pending(mapping) => match result {
                    Ok(_) => *final(self) is Ready && make.ensures(
                        (mapping,),
                        Ok((*final(self))->Ready_0),
                    ),
                    Err(error) => *final(self) is Spent && make.ensures((mapping,), Err(error)),
                },
                _ => result is Ok && *final(self) == *old(self),
            },
            old(self).leads_to(*final(self)),
    {
        let mut taken: ContextSlot<M, X> = ContextSlot::Spent;
        std::mem::swap(self, &mut taken);
        match taken {
            ContextSlot::Pending(mapping) => match make(mapping) {
                Ok(context) => {
                    *self = ContextSlot::Ready(context);
                    Ok(())
                },
                Err(error) => Err(error),
            },
            other => {
                *self = other;
                Ok(())
            },
        }
    }

    /// The context, if it is there.
    pub fn context(&mut self) -> (context: Option<&mut X>)
        ensures
            match *old(self) {
                ContextSlot::Ready(value) => context is Some && *context->0 == value
                    && *final(self) == ContextSlot::<M, X>::Ready(*final(context->0)),
                _ => context is None && *final(self) == *old(self),
            },
            old(self).leads_to(*final(self)),
    {
        match self {
            ContextSlot::Ready(value) => Some(value),
            _ => None,
        }
    }
}

} // verus!
