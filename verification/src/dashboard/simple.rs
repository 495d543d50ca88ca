//! The plain settings page: a link to the presentation and the limiter
//! checkbox.

use vstd::prelude::*;

use crate::text::push_str;

verus! {

/// Page text before the checkbox state.
pub const PAGE_START: &'static str = "<html><head><meta charset=UTF-8></head><body>\n        <h1>Sistema de presentaciones</h1>\n        <a href=\"/presentation\">Ir a la presentación</a>\n\n        <form method=\"POST\" action=\"/settings/limiter\" id=\"limiterForm\">\n            <label>\n                <input type=\"checkbox\" ";

/// Page text after the checkbox state.
pub const PAGE_END: &'static str = " name=\"enable\" onchange=\"this.form.submit()\">\n                Limiter\n            </label>\n        </form>\n\n        </body></html>";

/// The page for this limiter state.
pub open spec fn simple_dashboard_page(limiter_on: bool) -> Seq<char> {
    PAGE_START@ + (if limiter_on {
        "checked"@
    } else {
        ""@
    }) + PAGE_END@
}

/// The plain settings page, with the limiter checkbox checked when the
/// limiter is on.
pub fn main_dashboard(limiter_on: bool) -> (r: String)
    ensures
        r@ == simple_dashboard_page(limiter_on),
{
    let mut s = String::new();
    push_str(&mut s, PAGE_START);
    push_str(&mut s, if limiter_on { "checked" } else { "" });
    push_str(&mut s, PAGE_END);
    s
}

} // verus!
