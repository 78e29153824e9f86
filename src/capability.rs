use vstd::prelude::*;

verus! {

/// A prebuilt plugin that grants the application one OS- or UI-level ability.
#[derive(Clone, Copy, Debug, PartialEq, Eq, Structural)]
pub enum Capability {
    GlobalShortcut,
    Shell,
    Dialog,
    Fs,
    Sql,
}

/// How many capability plugins the application registers.
pub const PLUGIN_COUNT: usize = 5;

/// The capability plugins, in the order in which they are registered.
pub open spec fn registration_plan() -> Seq<Capability> {
    seq![
        Capability::GlobalShortcut,
        Capability::Shell,
        Capability::Dialog,
        Capability::Fs,
        Capability::Sql,
    ]
}

/// The plan registers each capability once: no plugin replaces another.
pub proof fn lemma_plan_is_distinct()
    ensures
        registration_plan().len() == PLUGIN_COUNT,
        registration_plan().no_duplicates(),
{
    let p = registration_plan();
    assert forall|i: int, j: int| 0 <= i < p.len() && 0 <= j < p.len() && i != j implies p[i]
        != p[j] by {}
}

/// The capability registered in position `i` of the plan.
pub fn capability_at(i: usize) -> (r: Capability)
    requires
        i < PLUGIN_COUNT,
    ensures
        r == registration_plan()[i as int],
{
    match i {
        0 => Capability::GlobalShortcut,
        1 => Capability::Shell,
        2 => Capability::Dialog,
        3 => Capability::Fs,
        _ => Capability::Sql,
    }
}

/// The whole registration plan.
pub fn capability_plugins() -> (r: Vec<Capability>)
    ensures
        r@ == registration_plan(),
{
    let mut r: Vec<Capability> = Vec::new();
    let mut i: usize = 0;
    while i < PLUGIN_COUNT
        invariant
            i <= PLUGIN_COUNT,
            r@ == registration_plan().take(i as int),
        decreases PLUGIN_COUNT - i,
    {
        r.push(capability_at(i));
        i = i + 1;
    }
    assert(registration_plan().take(PLUGIN_COUNT as int) =~= registration_plan());
    r
}

} // verus!
