//! A route entry of the home page.

use vstd::prelude::*;

use crate::text::{chars_of, push_str, string_of, to_uppercase, unicode_upper};

verus! {

/// Route link rendered on the home page.
#[derive(Debug, Clone)]
pub struct Link {
    /// HTTP method displayed for the route.
    pub method: String,
    /// Public route path.
    pub route: String,
    /// Route capabilities used by the home page.
    pub options: Vec<String>,
}

/// The list item of a link whose method reads `method_label`.
pub open spec fn link_item_text(method_label: Seq<char>, route: Seq<char>) -> Seq<char> {
    "<li>"@ + method_label + " <a href=\""@ + route + "\" target=\"api_mocks\">"@ + route
        + "</a></li>"@
}

/// Copies of the strings, in order.
pub fn copy_strings(items: &[String]) -> (out: Vec<String>)
    ensures
        out@.map_values(|s: String| s@) == items@.map_values(|s: String| s@),
{
    let mut out: Vec<String> = Vec::new();
    let mut k: usize = 0;
    while k < items.len()
        invariant
            k <= items.len(),
            out.len() == k,
            forall|j: int| 0 <= j < k ==> #[trigger] out@[j]@ == items@[j]@,
        decreases items.len() - k,
    {
        out.push(items[k].clone());
        k += 1;
    }
    assert(out@.map_values(|s: String| s@) =~= items@.map_values(|s: String| s@));
    out
}

/// The list item of a link whose method reads `method_label`.
pub fn link_item(method_label: &str, route: &str) -> (s: String)
    ensures
        s@ == link_item_text(method_label@, route@),
{
    let mut out = chars_of("<li>");
    push_str(&mut out, method_label);
    push_str(&mut out, " <a href=\"");
    push_str(&mut out, route);
    push_str(&mut out, "\" target=\"api_mocks\">");
    push_str(&mut out, route);
    push_str(&mut out, "</a></li>");
    string_of(&out)
}

impl Link {
    /// A home page link; the option labels are copied.
    pub fn new(method: String, route: String, options: &[String]) -> (l: Link)
        ensures
            l.method == method,
            l.route == route,
            l.options@.map_values(|s: String| s@) == options@.map_values(|s: String| s@),
    {
        Link { method, route, options: copy_strings(options) }
    }

    /// The list item of the link, with the method in uppercase.
    pub fn to_string(&self) -> (s: String)
        ensures
            s@ == link_item_text(unicode_upper(self.method@), self.route@),
    {
        let upper = to_uppercase(self.method.as_str());
        link_item(upper.as_str(), self.route.as_str())
    }
}

} // verus!
