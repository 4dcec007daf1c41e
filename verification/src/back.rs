//! Compute backends and the process-wide slot that holds the one in use.

use vstd::pervasive::unreached;
use vstd::prelude::*;

pub mod vk;

use self::vk::VulkanLoadError;

verus! {

/// A reference to storage owned by the backend.
#[derive(Clone, Copy, Debug, PartialEq, Eq)]
pub struct Handle;

/// A compute backend that has been brought up.
#[derive(Clone, Copy, Debug, PartialEq, Eq)]
pub enum Backend {
    Vk(vk::Backend),
}

/// The slot for the backend: empty until the backend is first asked for, and from then on
/// holding the outcome of the one attempt to bring it up, be it the backend or the failure.
#[derive(Clone, Copy, Debug, PartialEq, Eq)]
pub enum BackendCell {
    Uninitialized,
    Initialized(Result<Backend, VulkanLoadError>),
}

/// What an attempt to bring a backend up leaves in the slot.
pub open spec fn recorded(made: Result<vk::Backend, VulkanLoadError>) -> Result<
    Backend,
    VulkanLoadError,
> {
    match made {
        Ok(backend) => Ok(Backend::Vk(backend)),
        Err(error) => Err(error),
    }
}

/// The outcome that a borrowed outcome refers to.
pub open spec fn owned(outcome: Result<&Backend, VulkanLoadError>) -> Result<
    Backend,
    VulkanLoadError,
> {
    match outcome {
        Ok(backend) => Ok(*backend),
        Err(error) => Err(error),
    }
}

impl Backend {
    /// The name of the API behind the backend.
    pub fn name(&self) -> (name: String)
        ensures
            name@ == "Vk"@,
    {
        match self {
            Backend::Vk(_) => "Vk".to_owned(),
        }
    }
}

impl BackendCell {
    /// The slot after an access during which an attempt to bring the backend up, if one
    /// is made, yields `made`.
    pub open spec fn accessed(self, made: Result<vk::Backend, VulkanLoadError>) -> BackendCell {
        match self {
            BackendCell::Uninitialized => BackendCell::Initialized(recorded(made)),
            BackendCell::Initialized(_) => self,
        }
    }

    /// The slot after a run of accesses, one after the other, where an attempt to bring the
    /// backend up during the `k`-th of them, if one is made, yields `made[k]`.
    pub open spec fn accessed_in_turn(
        self,
        made: Seq<Result<vk::Backend, VulkanLoadError>>,
    ) -> BackendCell
        decreases made.len(),
    {
        if made.len() == 0 {
            self
        } else {
            self.accessed(made.first()).accessed_in_turn(made.drop_first())
        }
    }

    /// An empty slot.
    pub fn new() -> (cell: BackendCell)
        ensures
            cell == BackendCell::Uninitialized,
    {
        BackendCell::Uninitialized
    }

    /// The recorded outcome, if the backend has been asked for.
    pub fn get(&self) -> (outcome: Option<Result<&Backend, VulkanLoadError>>)
        ensures
            match outcome {
                Some(recorded) => *self == BackendCell::Initialized(owned(recorded)),
                None => *self is Uninitialized,
            },
    {
        match self {
            BackendCell::Uninitialized => None,
            BackendCell::Initialized(Ok(backend)) => Some(Ok(backend)),
            BackendCell::Initialized(Err(error)) => Some(Err(*error)),
        }
    }
}

/// Hands out the backend held in `cell`, bringing it up with `init` if this is the first
/// time it is asked for.
///
/// `init` is run only when the slot is empty, and what it returns is recorded for good: on
/// every later call the slot is left as it is, `init` is not run, and the recorded outcome
/// is handed out again.
pub fn backend<'a, F>(cell: &'a mut BackendCell, init: F) -> (outcome: Result<
    &'a Backend,
    VulkanLoadError,
>) where F: FnOnce() -> Result<vk::Backend, VulkanLoadError>
    requires
        *old(cell) is Uninitialized ==> init.requires(()),
    ensures
        *old(cell) is Initialized ==> *final(cell) == *old(cell),
        *old(cell) is Uninitialized ==> exists|made: Result<vk::Backend, VulkanLoadError>|
            init.ensures((), made) && *final(cell) == old(cell).accessed(made),
        *final(cell) == BackendCell::Initialized(owned(outcome)),
{
    if let BackendCell::Uninitialized = cell {
        let made = init();
        *cell = BackendCell::Initialized(
            match made {
                Ok(backend) => Ok(Backend::Vk(backend)),
                Err(error) => Err(error),
            },
        );
        assert(init.ensures((), made) && *cell == old(cell).accessed(made));
    }
    let settled: &'a BackendCell = cell;
    match settled {
        BackendCell::Initialized(Ok(backend)) => Ok(backend),
        BackendCell::Initialized(Err(error)) => Err(*error),
        BackendCell::Uninitialized => unreached(),
    }
}

/// The first access decides: whatever a later attempt to bring the backend up would
/// yield, a slot that has been accessed once is never changed by being accessed again.
pub proof fn lemma_first_access_decides(
    cell: BackendCell,
    first: Result<vk::Backend, VulkanLoadError>,
    second: Result<vk::Backend, VulkanLoadError>,
)
    ensures
        cell.accessed(first) is Initialized,
        cell.accessed(first).accessed(second) == cell.accessed(first),
        cell is Uninitialized ==> cell.accessed(first) == BackendCell::Initialized(recorded(first)),
{
}

/// However many accesses follow one another, the slot ends up as the first of them left
/// it: an empty slot holds what the first attempt yielded, and a filled slot is unchanged.
pub proof fn lemma_accesses_in_turn(
    cell: BackendCell,
    made: Seq<Result<vk::Backend, VulkanLoadError>>,
)
    requires
        made.len() > 0,
    ensures
        cell.accessed_in_turn(made) == cell.accessed(made.first()),
        cell is Initialized ==> cell.accessed_in_turn(made) == cell,
    decreases made.len(),
{
    let rest = made.drop_first();
    if rest.len() > 0 {
        lemma_accesses_in_turn(cell.accessed(made.first()), rest);
    } else {
        assert(cell.accessed(made.first()).accessed_in_turn(rest) == cell.accessed(made.first()));
    }
}

} // verus!
