use vstd::prelude::*;

use crate::menu::{MenuId, MenuKind, entries_of, idle_entries, kind_for, run_entries};
use crate::shell::{
    Command, Effect, Toggle, click_effects, click_step, toggle_effects, toggle_step, toggle_takes_effect,
};

verus! {

/// The tray mode after a sequence of toggles, from mode `active`.
pub open spec fn run_toggles(active: bool, ops: Seq<Toggle>) -> bool
    decreases ops.len(),
{
    if ops.len() == 0 {
        active
    } else {
        toggle_step(run_toggles(active, ops.drop_last()), ops.last())
    }
}

/// How many toggles of the sequence take effect, from mode `active`.
pub open spec fn effective_toggles(active: bool, ops: Seq<Toggle>) -> nat
    decreases ops.len(),
{
    if ops.len() == 0 {
        0
    } else {
        let before = run_toggles(active, ops.drop_last());
        effective_toggles(active, ops.drop_last()) + if toggle_takes_effect(before, ops.last()) {
            1nat
        } else {
            0nat
        }
    }
}

/// The menu that the tray shows after the host carried out `effects`,
/// having shown `shown` before: the last menu set wins.
pub open spec fn menu_after(shown: MenuKind, effects: Seq<Effect>) -> MenuKind
    decreases effects.len(),
{
    if effects.len() == 0 {
        shown
    } else {
        match effects.last() {
            Effect::SetMenu(k) => k,
            _ => menu_after(shown, effects.drop_last()),
        }
    }
}

/// Whatever sequence of toggles is applied, the mode differs from the
/// starting one exactly when an odd number of them took effect; a toggle
/// towards the mode already held takes no effect.
pub proof fn lemma_toggle_parity(active: bool, ops: Seq<Toggle>)
    ensures
        run_toggles(active, ops) == (active != (effective_toggles(active, ops) % 2 == 1)),
    decreases ops.len(),
{
    if ops.len() > 0 {
        lemma_toggle_parity(active, ops.drop_last());
    }
}

/// A toggle repeated right after itself changes nothing and asks for nothing.
pub proof fn lemma_toggle_idempotent(active: bool, t: Toggle)
    ensures
        toggle_step(toggle_step(active, t), t) == toggle_step(active, t),
        toggle_effects(toggle_step(active, t), t) == Seq::<Effect>::empty(),
{
}

/// After a toggle, the menu shown is the one of the new mode: the run
/// controls after turning on, the quit item alone after turning off.
pub proof fn lemma_toggle_menu(active: bool, t: Toggle)
    ensures
        menu_after(kind_for(active), toggle_effects(active, t)) == kind_for(toggle_step(active, t)),
        t == Toggle::On ==> entries_of(kind_for(toggle_step(active, t))) == run_entries(),
        t == Toggle::Off ==> entries_of(kind_for(toggle_step(active, t))) == idle_entries(),
{
    let e = toggle_effects(active, t);
    if e.len() > 0 {
        reveal_with_fuel(menu_after, 4);
        match t {
            Toggle::On => {
                assert(e.drop_last() =~= seq![Effect::SetMenu(MenuKind::Run)]);
            },
            Toggle::Off => {
                assert(e.drop_last() =~= seq![Effect::SetMenu(MenuKind::Idle), Effect::ShowMain]);
                assert(e.drop_last().drop_last() =~= seq![Effect::SetMenu(MenuKind::Idle)]);
            },
        }
    }
}

/// A click on any tray item keeps the menu shown in step with the mode.
pub proof fn lemma_click_menu(active: bool, m: MenuId)
    ensures
        menu_after(kind_for(active), click_effects(active, m)) == kind_for(click_step(active, m)),
{
    let e = click_effects(active, m);
    reveal_with_fuel(menu_after, 5);
    if m == MenuId::Stop {
        lemma_toggle_menu(active, Toggle::Off);
        if active {
            assert(e.drop_last() =~= seq![
                Effect::Broadcast(Command::Stop),
                Effect::SetMenu(MenuKind::Idle),
                Effect::ShowMain,
            ]);
            assert(e.drop_last().drop_last() =~= seq![
                Effect::Broadcast(Command::Stop),
                Effect::SetMenu(MenuKind::Idle),
            ]);
        } else {
            assert(e.drop_last() =~= Seq::<Effect>::empty());
        }
    } else {
        assert(e.drop_last() =~= Seq::<Effect>::empty());
    }
}

} // verus!
