//! The notification dispatcher: title and body go to the operating system's
//! notification surface as they are.

use crate::effect::{Effect, EffectView};
use vstd::prelude::*;

verus! {

/// What `show_notification` asks for: one notification with the given texts.
pub open spec fn notification_effects(title: Seq<char>, body: Seq<char>) -> Seq<EffectView> {
    seq![EffectView::Notify { title, body }]
}

/// Submits one notification. Nothing is checked, shortened or retried: the
/// request is made once, and its failure is the caller's to ignore.
pub fn show_notification(title: String, body: String) -> (effects: Vec<Effect>)
    ensures
        effects.deep_view() == notification_effects(title@, body@),
{
    let mut effects: Vec<Effect> = Vec::new();
    effects.push(Effect::Notify { title, body });
    effects
}

} // verus!
