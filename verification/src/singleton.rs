//! Lazily initialised singleton cells.
//!
//! A cell starts out empty, is filled exactly once during bring-up and keeps
//! its content from then on. Whatever runs on the content runs inside a
//! critical section, so that no interrupt handler sees it half done.

use crate::Initialized;
use vstd::prelude::*;

verus! {

/// Runs `f` with interrupts and preemption held off and hands its result on.
///
/// Wraps `critical_section::with`, which enters the critical section, calls
/// the closure once and leaves the critical section again. It unwinds only
/// where the closure does.
#[verifier::external_body]
fn critical<Output, F: FnOnce() -> Output>(f: F) -> (output: Output)
    requires
        f.requires(()),
    ensures
        f.ensures((), output),
{
    critical_section::with(|_cs| f())
}

/// A cell that holds the state of one driver.
pub trait SingletonHolder: Initialized + Default {
    type Content;

    /// What the cell holds, if anything.
    spec fn content(&self) -> Option<Self::Content>;

    /// A cell counts as initialized exactly when it holds something.
    proof fn lemma_initialized_holds_content(&self)
        ensures
            self.initialized() == (self.content() is Some),
    ;

    /// Runs `f` on the content and stores what it hands back.
    fn with<Output, F: FnOnce(Self::Content) -> (Self::Content, Output)>(
        &mut self,
        f: F,
    ) -> (output: Output)
        requires
            old(self).content() is Some,
            f.requires((old(self).content()->0,)),
        ensures
            final(self).content() is Some,
            f.ensures((old(self).content()->0,), (final(self).content()->0, output)),
    ;

    /// Runs `f` on a reference to the content, which stays as it is.
    fn with_ref<Output, F: FnOnce(&Self::Content) -> Output>(&mut self, f: F) -> (output: Output)
        requires
            old(self).content() is Some,
            f.requires((&old(self).content()->0,)),
        ensures
            final(self).content() == old(self).content(),
            f.ensures((&old(self).content()->0,), output),
    {
        let run = |state: Self::Content| -> (out: (Self::Content, Output))
            requires
                f.requires((&state,)),
            ensures
                out.0 == state,
                f.ensures((&state,), out.1),
        {
            let output = f(&state);
            (state, output)
        };
        self.with(run)
    }

    /// Runs `f` on a mutable reference to the content and keeps what it
    /// leaves there.
    fn with_ref_mut<Output, F: FnOnce(&mut Self::Content) -> Output>(
        &mut self,
        f: F,
    ) -> (output: Output)
        requires
            old(self).content() is Some,
            forall|content: &mut Self::Content|
                *content == old(self).content()->0 ==> f.requires((content,)),
        ensures
            final(self).content() is Some,
            exists|content: &mut Self::Content|
                *content == old(self).content()->0
                    && *final(content) == final(self).content()->0
                    && f.ensures((content,), output),
    {
        let run = |state: Self::Content| -> (out: (Self::Content, Output))
            requires
                forall|content: &mut Self::Content| *content == state ==> f.requires((content,)),
            ensures
                exists|content: &mut Self::Content|
                    *content == state && *final(content) == out.0 && f.ensures((content,), out.1),
        {
            let mut state = state;
            let output = f(&mut state);
            (state, output)
        };
        self.with(run)
    }
}

/// The ways in which a cell is accessed, short of emptying it again.
pub enum CellAccess {
    InitOnce,
    Ensure,
    With,
    WithRef,
    WithRefMut,
    IsInitialized,
}

impl CellAccess {
    /// Whether a cell admits the access, given whether it is filled:
    /// `init_once` needs an empty cell, the accesses to the content a filled
    /// one.
    pub open spec fn admitted(self, filled: bool) -> bool {
        match self {
            CellAccess::InitOnce => !filled,
            CellAccess::With | CellAccess::WithRef | CellAccess::WithRefMut => filled,
            CellAccess::Ensure | CellAccess::IsInitialized => true,
        }
    }

    /// Whether the cell is filled after the access.
    pub open spec fn fills(self, filled: bool) -> bool {
        match self {
            CellAccess::InitOnce | CellAccess::Ensure => true,
            _ => filled,
        }
    }
}

/// Whether a cell admits the accesses one after another.
pub open spec fn admitted_all(filled: bool, accesses: Seq<CellAccess>) -> bool
    decreases accesses.len(),
{
    accesses.len() == 0 || (accesses[0].admitted(filled) && admitted_all(
        accesses[0].fills(filled),
        accesses.skip(1),
    ))
}

/// The cell used by the drivers of this crate.
pub struct SingletonHolderImpl<Content> {
    state: Option<Content>,
}

impl<Content> View for SingletonHolderImpl<Content> {
    type V = Option<Content>;

    closed spec fn view(&self) -> Option<Content> {
        self.state
    }
}

impl<Content> SingletonHolderImpl<Content> {
    /// An empty cell.
    pub fn new() -> (cell: Self)
        ensures
            cell@ is None,
    {
        SingletonHolderImpl { state: None }
    }

    /// Empties the cell.
    pub fn reset(&mut self)
        ensures
            final(self)@ is None,
    {
        self.state = None;
    }

    /// Whether the cell has been filled.
    pub fn is_initialized(&self) -> (initialized: bool)
        ensures
            initialized == (self@ is Some),
    {
        self.state.is_some()
    }

    /// Fills the empty cell with what `constructor` makes of `dependencies`.
    /// Filling a cell twice is a wiring mistake in the bring-up sequence.
    pub fn init_once<Dependencies, F: FnOnce(Dependencies) -> Content>(
        &mut self,
        dependencies: Dependencies,
        constructor: F,
    )
        requires
            CellAccess::InitOnce.admitted(old(self)@ is Some),
            constructor.requires((dependencies,)),
        ensures
            final(self)@ is Some,
            constructor.ensures((dependencies,), final(self)@->0),
    {
        let construct = move || -> (content: Content)
            requires
                constructor.requires((dependencies,)),
            ensures
                constructor.ensures((dependencies,), content),
        {
            constructor(dependencies)
        };
        self.state = Some(critical(construct));
    }

    /// Fills the cell as `init_once` does if it is empty, and leaves it
    /// alone otherwise.
    pub fn ensure<Dependencies, F: FnOnce(Dependencies) -> Content>(
        &mut self,
        dependencies: Dependencies,
        constructor: F,
    )
        requires
            old(self)@ is None ==> constructor.requires((dependencies,)),
        ensures
            final(self)@ is Some,
            old(self)@ is Some ==> final(self)@ == old(self)@,
            old(self)@ is None ==> constructor.ensures((dependencies,), final(self)@->0),
    {
        if !self.is_initialized() {
            self.init_once(dependencies, constructor);
        }
    }

    /// Runs `f` on the content inside a critical section and stores what it
    /// hands back. An empty cell has nothing to run on.
    pub fn with<Output, F: FnOnce(Content) -> (Content, Output)>(&mut self, f: F) -> (output: Output)
        requires
            CellAccess::With.admitted(old(self)@ is Some),
            f.requires((old(self)@->0,)),
        ensures
            final(self)@ is Some,
            f.ensures((old(self)@->0,), (final(self)@->0, output)),
    {
        let prev = self.state.take().unwrap();
        let run = move || -> (out: (Content, Output))
            requires
                f.requires((prev,)),
            ensures
                f.ensures((prev,), out),
        {
            f(prev)
        };
        let (after, output) = critical(run);
        self.state = Some(after);
        output
    }

    /// Runs `f` on a reference to the content inside a critical section.
    pub fn with_ref<Output, F: FnOnce(&Content) -> Output>(&self, f: F) -> (output: Output)
        requires
            CellAccess::WithRef.admitted(self@ is Some),
            f.requires((&self@->0,)),
        ensures
            f.ensures((&self@->0,), output),
    {
        let content = self.state.as_ref().unwrap();
        let run = move || -> (out: Output)
            requires
                f.requires((content,)),
            ensures
                f.ensures((content,), out),
        {
            f(content)
        };
        critical(run)
    }

    /// Runs `f` on a mutable reference to the content inside a critical
    /// section and keeps what it leaves there.
    pub fn with_ref_mut<Output, F: FnOnce(&mut Content) -> Output>(
        &mut self,
        f: F,
    ) -> (output: Output)
        requires
            CellAccess::WithRefMut.admitted(old(self)@ is Some),
            forall|content: &mut Content| *content == old(self)@->0 ==> f.requires((content,)),
        ensures
            final(self)@ is Some,
            exists|content: &mut Content|
                *content == old(self)@->0 && *final(content) == final(self)@->0 && f.ensures(
                    (content,),
                    output,
                ),
    {
        let run = |state: Content| -> (out: (Content, Output))
            requires
                forall|content: &mut Content| *content == state ==> f.requires((content,)),
            ensures
                exists|content: &mut Content|
                    *content == state && *final(content) == out.0 && f.ensures((content,), out.1),
        {
            let mut state = state;
            let output = f(&mut state);
            (state, output)
        };
        self.with(run)
    }
}

impl<Content> Default for SingletonHolderImpl<Content> {
    fn default() -> (cell: Self)
        ensures
            cell@ is None,
    {
        Self::new()
    }
}

impl<Content: Default> Initialized for SingletonHolderImpl<Content> {
    open spec fn initialized(&self) -> bool {
        self@ is Some
    }

    /// Fills the empty cell with the default content.
    fn init(&mut self)
        ensures
            call_ensures(Content::default, (), final(self)@->0),
    {
        let construct = || -> (content: Content)
            ensures
                call_ensures(Content::default, (), content),
        {
            Content::default()
        };
        self.state = Some(critical(construct));
    }

    fn is_initialized(&self) -> (initialized: bool) {
        self.state.is_some()
    }
}

impl<Content: Default> SingletonHolder for SingletonHolderImpl<Content> {
    type Content = Content;

    open spec fn content(&self) -> Option<Content> {
        self@
    }

    proof fn lemma_initialized_holds_content(&self) {
    }

    fn with<Output, F: FnOnce(Content) -> (Content, Output)>(&mut self, f: F) -> (output: Output) {
        SingletonHolderImpl::with(self, f)
    }
}

/// A filled cell stays filled, so that it admits no `init_once` however
/// many other accesses come first.
pub proof fn lemma_filled_cell_rejects_init_once(accesses: Seq<CellAccess>, at: int)
    requires
        0 <= at < accesses.len(),
        accesses[at] is InitOnce,
    ensures
        !admitted_all(true, accesses),
    decreases accesses.len(),
{
    if at > 0 {
        lemma_filled_cell_rejects_init_once(accesses.skip(1), at - 1);
    }
}

/// No cell admits `init_once` twice: the second call is rejected, whatever
/// the cell held at first and whichever accesses are interleaved with the
/// two calls.
pub proof fn lemma_second_init_once_is_rejected(
    filled: bool,
    accesses: Seq<CellAccess>,
    first: int,
    second: int,
)
    requires
        0 <= first < second < accesses.len(),
        accesses[first] is InitOnce,
        accesses[second] is InitOnce,
    ensures
        !admitted_all(filled, accesses),
    decreases accesses.len(),
{
    if first == 0 {
        lemma_filled_cell_rejects_init_once(accesses.skip(1), second - 1);
    } else {
        lemma_second_init_once_is_rejected(
            accesses[0].fills(filled),
            accesses.skip(1),
            first - 1,
            second - 1,
        );
    }
}

} // verus!
