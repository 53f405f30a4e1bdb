use vstd::prelude::*;

use once_cell::sync::OnceCell;

verus! {

#[verifier::external_type_specification]
#[verifier::external_body]
#[verifier::reject_recursive_types(T)]
pub struct ExOnceCell<T>(OnceCell<T>);

/// What a write-once cell of entry points holds: nothing, or one value.
pub uninterp spec fn cell_contents(c: OnceCell<Option<usize>>) -> Seq<Option<usize>>;

/// Relies on `once_cell::sync::OnceCell::new`: the new cell is empty.
#[verifier::external_body]
fn cell_new() -> (r: OnceCell<Option<usize>>)
    ensures
        cell_contents(r) == Seq::<Option<usize>>::empty(),
{
    OnceCell::new()
}

/// Relies on `once_cell::sync::OnceCell::get`: the value once the cell is
/// set, `None` before (no initialization runs concurrently: the cell is only
/// ever set through `&mut`).
#[verifier::external_body]
fn cell_get(c: &OnceCell<Option<usize>>) -> (r: Option<Option<usize>>)
    ensures
        r.is_none() <==> cell_contents(*c).len() == 0,
        r.is_some() ==> cell_contents(*c) == seq![r.unwrap()],
{
    c.get().copied()
}

/// Relies on `once_cell::sync::OnceCell::set`: an empty cell takes the value
/// and `Ok` is returned; a full cell keeps its value and returns `Err`.
#[verifier::external_body]
fn cell_set(c: &mut OnceCell<Option<usize>>, value: Option<usize>) -> (r: bool)
    ensures
        r == (cell_contents(*old(c)).len() == 0),
        cell_contents(*old(c)).len() == 0 ==> cell_contents(*final(c)) == seq![value],
        cell_contents(*old(c)).len() != 0 ==> cell_contents(*final(c)) == cell_contents(*old(c)),
{
    c.set(value).is_ok()
}

/// The flags argument the configurator entry point is always called with.
pub const CONFIGURATOR_FLAGS: i32 = 0;

/// Which module to load, given the settled state and the requested
/// directory: only an unsettled cell asks for a load.
pub open spec fn load_request(state: Option<Option<usize>>, module_dir: Seq<char>) -> Option<
    Seq<char>,
> {
    match state {
        None => Some(module_dir),
        Some(_) => None,
    }
}

/// The state after a resolution attempt that found `found`: the first
/// outcome is kept for good, later ones are ignored.
pub open spec fn after_settle(state: Option<Option<usize>>, found: Option<usize>) -> Option<
    Option<usize>,
> {
    match state {
        None => Some(found),
        Some(s) => Some(s),
    }
}

/// The entry point to call, if resolution succeeded.
pub open spec fn entry_of(state: Option<Option<usize>>) -> Option<usize> {
    match state {
        Some(Some(addr)) => Some(addr),
        _ => None,
    }
}

/// A call of the configurator entry point to be made.
pub struct ConfiguratorCall {
    pub entry: usize,
    pub target_dir: String,
    pub flags: i32,
}

/// A write-once record of where the configurator entry point lies. The first
/// resolution attempt settles it, successful or not; every later attempt,
/// whatever module it names, is ignored.
pub struct ConfiguratorCell {
    cell: OnceCell<Option<usize>>,
}

impl View for ConfiguratorCell {
    /// `None` while unsettled; `Some(None)` after a failed resolution;
    /// `Some(Some(addr))` after a successful one.
    type V = Option<Option<usize>>;

    closed spec fn view(&self) -> Option<Option<usize>> {
        if cell_contents(self.cell).len() == 0 {
            None
        } else {
            Some(cell_contents(self.cell)[0])
        }
    }
}

impl ConfiguratorCell {
    pub closed spec fn wf(&self) -> bool {
        cell_contents(self.cell).len() <= 1
    }

    pub fn new() -> (r: ConfiguratorCell)
        ensures
            r.wf(),
            r@ == None::<Option<usize>>,
    {
        ConfiguratorCell { cell: cell_new() }
    }

    pub fn settled(&self) -> (r: Option<Option<usize>>)
        requires
            self.wf(),
        ensures
            r == self@,
    {
        cell_get(&self.cell)
    }

    /// The module directory to load the entry point from, or `None` once the
    /// cell is settled.
    pub fn load_request(&self, module_dir: &str) -> (r: Option<String>)
        requires
            self.wf(),
        ensures
            r.is_some() == load_request(self@, module_dir@).is_some(),
            r.is_some() ==> r.unwrap()@ == load_request(self@, module_dir@).unwrap(),
    {
        match cell_get(&self.cell) {
            None => Some(String::from_str(module_dir)),
            Some(_) => None,
        }
    }

    /// Records the outcome of a resolution attempt; returns whether it was
    /// the first one and so was kept.
    pub fn settle(&mut self, found: Option<usize>) -> (r: bool)
        requires
            old(self).wf(),
        ensures
            final(self).wf(),
            final(self)@ == after_settle(old(self)@, found),
            r == old(self)@.is_none(),
    {
        cell_set(&mut self.cell, found)
    }

    /// The configurator call to make for `target_dir`, or `None` where
    /// resolution failed or never ran.
    pub fn plan_invocation(&self, target_dir: &str) -> (r: Option<ConfiguratorCall>)
        requires
            self.wf(),
        ensures
            r.is_some() == entry_of(self@).is_some(),
            r.is_some() ==> r.unwrap().entry == entry_of(self@).unwrap() && r.unwrap().target_dir@
                == target_dir@ && r.unwrap().flags == CONFIGURATOR_FLAGS,
    {
        match cell_get(&self.cell) {
            Some(Some(entry)) => Some(
                ConfiguratorCall {
                    entry,
                    target_dir: String::from_str(target_dir),
                    flags: CONFIGURATOR_FLAGS,
                },
            ),
            _ => None,
        }
    }
}

/// The status reported for a configuration request: the entry point's own
/// result where it was called, else zero.
pub fn configuration_status(reply: Option<i32>) -> (r: i32)
    ensures
        r == (match reply {
            Some(code) => code,
            None => 0,
        }),
{
    match reply {
        Some(code) => code,
        None => 0,
    }
}

/// Once a first attempt has settled the cell, a request naming any other
/// module asks for no load, and a second outcome changes nothing.
pub proof fn lemma_resolution_is_one_shot(
    state: Option<Option<usize>>,
    first_dir: Seq<char>,
    second_dir: Seq<char>,
    first_found: Option<usize>,
    second_found: Option<usize>,
)
    ensures
        state.is_none() ==> load_request(state, first_dir) == Some(first_dir),
        load_request(after_settle(state, first_found), second_dir).is_none(),
        after_settle(after_settle(state, first_found), second_found) == after_settle(
            state,
            first_found,
        ),
{
}

/// A first resolution that finds nothing leaves no entry point for good: every
/// later configuration request is a no-op.
pub proof fn lemma_failed_resolution_is_silent(later_found: Option<usize>)
    ensures
        entry_of(after_settle(None, None)).is_none(),
        entry_of(after_settle(after_settle(None, None), later_found)).is_none(),
{
}

} // verus!
