//! The deep-link listener: an activation of the application's URL scheme
//! hands the callback URL to the frontend and brings the window up.

use crate::effect::{no_effects, Effect, EffectView, LogLevel, WindowOp};
use vstd::prelude::*;

verus! {

/// The name of the message that carries a callback URL to the frontend.
pub open spec fn oauth_callback_event() -> Seq<char> {
    "oauth-callback"@
}

/// The line that is logged when the URL `url` arrives.
pub open spec fn deep_link_line(url: Seq<char>) -> Seq<char> {
    "Deep link received: "@ + url
}

/// What an activation with the URLs `urls` asks for.
///
/// Only the first URL counts; the others of the same activation are dropped.
/// Its arrival is logged. If there is a window, the URL is emitted to the
/// frontend once, as it is, and the window is then shown and focused,
/// whatever the URL holds. An activation without a URL asks for nothing.
pub open spec fn open_url_effects(urls: Seq<Seq<char>>, window_present: bool) -> Seq<EffectView> {
    if urls.len() == 0 {
        Seq::empty()
    } else if window_present {
        seq![
            EffectView::Log { level: LogLevel::Info, message: deep_link_line(urls[0]) },
            EffectView::Emit { event: oauth_callback_event(), payload: urls[0] },
            EffectView::Window(WindowOp::Show),
            EffectView::Window(WindowOp::SetFocus),
        ]
    } else {
        seq![EffectView::Log { level: LogLevel::Info, message: deep_link_line(urls[0]) }]
    }
}

/// Routes one activation of the URL scheme. `urls` holds the URLs of the
/// activation in arrival order, each in its canonical string form.
pub fn on_open_url(urls: &Vec<String>, window_present: bool) -> (effects: Vec<Effect>)
    ensures
        effects.deep_view() == open_url_effects(urls.deep_view(), window_present),
{
    if urls.len() == 0 {
        return no_effects();
    }
    let url = urls[0].clone();
    let mut message = "Deep link received: ".to_owned();
    message.append(url.as_str());
    let mut effects: Vec<Effect> = Vec::new();
    effects.push(Effect::Log { level: LogLevel::Info, message });
    if window_present {
        effects.push(Effect::Emit { event: "oauth-callback".to_owned(), payload: url });
        effects.push(Effect::Window(WindowOp::Show));
        effects.push(Effect::Window(WindowOp::SetFocus));
    }
    effects
}

} // verus!
