//! Reference-counted tokens for a shared resource.
//!
//! A [`SharedToken`] counts the clients that currently need a resource. Each
//! client holds a handle obtained from [`SharedToken::acquire`] and gives it
//! back with [`SharedToken::release`]. The release that brings the count to
//! zero, and no other, deactivates the resource.

use vstd::prelude::*;

verus! {

/// The largest number of handles that may be outstanding at a time.
pub const MAX_TOKENS: usize = isize::MAX as usize;

/// Deactivation of a resource, run when its last handle is given back.
pub trait Release<Resource> {
    /// Whether the resource is in a state in which it can be deactivated:
    /// in any, unless the implementation says otherwise. To deactivate a
    /// resource in another state is a logic error.
    open spec fn can_release(&self, resource: Resource) -> bool {
        true
    }

    /// Deactivates the resource.
    fn release(&self, resource: &mut Resource)
        requires
            self.can_release(*old(resource)),
    ;
}

/// The use counter of one resource kind, with the marker its handles are
/// copied from.
pub struct SharedToken<Token> {
    token: Token,
    count: usize,
}

/// Whether giving back one handle while `uses` are outstanding deactivates
/// the resource.
pub open spec fn is_last_use(uses: nat) -> bool {
    uses == 1
}

/// How often the resource is deactivated while `n` handles are given back one
/// after another, starting with `uses` outstanding.
pub open spec fn deactivations(uses: nat, n: nat) -> nat
    decreases n,
{
    if n == 0 || uses == 0 {
        0
    } else {
        let now: nat = if is_last_use(uses) { 1 } else { 0 };
        now + deactivations((uses - 1) as nat, (n - 1) as nat)
    }
}

impl<Token> SharedToken<Token> {
    /// Number of handles that are outstanding.
    pub closed spec fn uses(&self) -> nat {
        self.count as nat
    }

    /// The marker that handles are copied from.
    pub closed spec fn payload(&self) -> Token {
        self.token
    }

    /// A counter without outstanding handles.
    pub fn new(token: Token) -> (shared: Self)
        ensures
            shared.uses() == 0,
            shared.payload() == token,
    {
        SharedToken { token, count: 0 }
    }

    /// Number of handles that are outstanding.
    pub fn count(&self) -> (count: usize)
        ensures
            count == self.uses(),
    {
        self.count
    }

    /// Counts one more client and hands out its handle.
    pub fn acquire(&mut self) -> (token: Token) where Token: Clone
        requires
            old(self).uses() < MAX_TOKENS,
        ensures
            final(self).uses() == old(self).uses() + 1,
            final(self).payload() == old(self).payload(),
            cloned(old(self).payload(), token),
    {
        self.increment_uses();
        self.token.clone()
    }

    /// Takes a handle back. When it was the last one, `resource` is
    /// deactivated through the handle; otherwise it is left alone.
    pub fn release<Resource>(
        &mut self,
        token: Token,
        resource: &mut Resource,
    ) -> (deactivated: bool) where Token: Release<Resource>
        requires
            old(self).uses() > 0,
            is_last_use(old(self).uses()) ==> token.can_release(*old(resource)),
        ensures
            final(self).uses() == old(self).uses() - 1,
            final(self).payload() == old(self).payload(),
            deactivated == is_last_use(old(self).uses()),
            deactivated ==> exists|target: &mut Resource|
                *target == *old(resource) && *final(target) == *final(resource) && call_ensures(
                    Token::release,
                    (&token, target),
                    (),
                ),
            !deactivated ==> *final(resource) == *old(resource),
    {
        if self.decrement_uses() == 1 {
            token.release(resource);
            true
        } else {
            false
        }
    }

    fn increment_uses(&mut self)
        requires
            old(self).uses() < MAX_TOKENS,
        ensures
            final(self).uses() == old(self).uses() + 1,
            final(self).payload() == old(self).payload(),
    {
        self.count = self.count + 1;
    }

    fn decrement_uses(&mut self) -> (previous: usize)
        requires
            old(self).uses() > 0,
        ensures
            previous == old(self).uses(),
            final(self).uses() == old(self).uses() - 1,
            final(self).payload() == old(self).payload(),
    {
        let previous = self.count;
        self.count = previous - 1;
        previous
    }
}

impl<Token> std::ops::Deref for SharedToken<Token> {
    type Target = Token;

    /// The marker that handles are copied from.
    fn deref(&self) -> (token: &Token)
        ensures
            *token == self.payload(),
    {
        &self.token
    }
}

/// Giving back every outstanding handle deactivates the resource exactly
/// once, with the last handle; giving back fewer does not deactivate it.
/// Handles carry no identity, so the order in which their holders give them
/// back plays no part.
pub proof fn lemma_release_all_deactivates_once(uses: nat, n: nat)
    requires
        n <= uses,
    ensures
        n < uses || uses == 0 ==> deactivations(uses, n) == 0,
        n == uses && uses > 0 ==> deactivations(uses, n) == 1,
    decreases n,
{
    if n > 0 {
        lemma_release_all_deactivates_once((uses - 1) as nat, (n - 1) as nat);
    }
}

} // verus!
