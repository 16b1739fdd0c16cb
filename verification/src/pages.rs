//! The home page: the registered routes, inlined into the page template.

use vstd::prelude::*;

use crate::generator::json::{
    json_array, json_compact, json_object, json_string, serde_json_array, serde_json_compact,
    serde_json_object, serde_json_string,
};
use crate::link::Link;
use crate::text::{chars_of, push_str, replace_all, replace_str, string_of};

verus! {

/// Renderer of the home page.
pub struct Pages {
    links: Vec<Link>,
    index_template: String,
    scripts_template: String,
    styles_template: String,
}

/// The tag of the route script, dropped from the page.
pub open spec fn routes_script_tag() -> Seq<char> {
    "<script src=\"/mock-routes.js\"></script>"@
}

/// The tag of the page script, replaced by the inline scripts.
pub open spec fn scripts_tag() -> Seq<char> {
    "<script src=\"/scripts.js\"></script>"@
}

/// The tag of the style sheet, replaced by the inline styles.
pub open spec fn styles_tag() -> Seq<char> {
    "<link rel=\"stylesheet\" href=\"/styles.css\" />"@
}

/// The inline script block: the routes as JSON, then the page script.
pub open spec fn inline_scripts(routes_json: Seq<char>, scripts: Seq<char>) -> Seq<char> {
    "<script type=\"text/javascript\">\n    "@ + ("let mock_routes = "@ + routes_json + ";"@)
        + "\n    "@ + scripts + "\n        </script>"@
}

/// The inline style block.
pub open spec fn inline_styles(styles: Seq<char>) -> Seq<char> {
    "<style>\n            "@ + styles + "\n        </style>"@
}

/// The page: the template with the route script tag removed and the script and
/// style tags replaced by inline blocks.
pub open spec fn rendered_page(
    index: Seq<char>,
    scripts: Seq<char>,
    styles: Seq<char>,
    routes_json: Seq<char>,
) -> Seq<char> {
    replace_all(
        replace_all(
            replace_all(index, routes_script_tag(), Seq::empty()),
            scripts_tag(),
            inline_scripts(routes_json, scripts),
        ),
        styles_tag(),
        inline_styles(styles),
    )
}

/// The JSON array of a link's option labels.
pub open spec fn options_value(options: Seq<String>) -> serde_json::Value {
    serde_json_array(options.map_values(|o: String| serde_json_string(o@)))
}

/// The JSON object of a link: its method, route and option labels.
pub open spec fn link_value(l: Link) -> serde_json::Value {
    serde_json_object(
        seq!["method"@, "route"@, "options"@],
        seq![serde_json_string(l.method@), serde_json_string(l.route@), options_value(l.options@)],
    )
}

/// The routes of the page as compact JSON: an array of the links' objects,
/// in the order they were pushed.
pub open spec fn routes_json(links: Seq<Link>) -> Seq<char> {
    serde_json_compact(serde_json_array(links.map_values(|l: Link| link_value(l))))
}

/// The JSON object of a link.
fn link_json(l: &Link) -> (v: serde_json::Value)
    ensures
        v == link_value(*l),
{
    let mut opts: Vec<serde_json::Value> = Vec::new();
    let mut k: usize = 0;
    while k < l.options.len()
        invariant
            k <= l.options.len(),
            opts@ == l.options@.take(k as int).map_values(|o: String| serde_json_string(o@)),
        decreases l.options.len() - k,
    {
        opts.push(json_string(l.options[k].as_str()));
        k += 1;
        assert(opts@ =~= l.options@.take(k as int).map_values(|o: String| serde_json_string(o@)));
    }
    assert(l.options@.take(l.options.len() as int) =~= l.options@);
    let mut keys: Vec<String> = Vec::new();
    keys.push("method".to_string());
    keys.push("route".to_string());
    keys.push("options".to_string());
    let mut values: Vec<serde_json::Value> = Vec::new();
    values.push(json_string(l.method.as_str()));
    values.push(json_string(l.route.as_str()));
    values.push(json_array(opts));
    proof {
        reveal_strlit("method");
        reveal_strlit("route");
        reveal_strlit("options");
    }
    assert(crate::text::string_views(keys@) =~= seq!["method"@, "route"@, "options"@]);
    assert(values@ =~= seq![
        serde_json_string(l.method@),
        serde_json_string(l.route@),
        options_value(l.options@),
    ]);
    json_object(keys, values)
}

/// The routes as compact JSON.
fn links_json(links: &Vec<Link>) -> (s: String)
    ensures
        s@ == routes_json(links@),
{
    let mut items: Vec<serde_json::Value> = Vec::new();
    let mut k: usize = 0;
    while k < links.len()
        invariant
            k <= links.len(),
            items@ == links@.take(k as int).map_values(|l: Link| link_value(l)),
        decreases links.len() - k,
    {
        items.push(link_json(&links[k]));
        k += 1;
        assert(items@ =~= links@.take(k as int).map_values(|l: Link| link_value(l)));
    }
    assert(links@.take(links.len() as int) =~= links@);
    let v = json_array(items);
    json_compact(&v)
}

/// The page built from its templates and the routes as JSON.
pub fn render_page(index: &str, scripts: &str, styles: &str, routes_json: &str) -> (page: String)
    ensures
        page@ == rendered_page(index@, scripts@, styles@, routes_json@),
{
    let mut script_block = chars_of("<script type=\"text/javascript\">\n    ");
    push_str(&mut script_block, "let mock_routes = ");
    push_str(&mut script_block, routes_json);
    push_str(&mut script_block, ";");
    push_str(&mut script_block, "\n    ");
    push_str(&mut script_block, scripts);
    push_str(&mut script_block, "\n        </script>");
    let script_block = string_of(&script_block);
    assert(script_block@ =~= inline_scripts(routes_json@, scripts@));
    let mut style_block = chars_of("<style>\n            ");
    push_str(&mut style_block, styles);
    push_str(&mut style_block, "\n        </style>");
    let style_block = string_of(&style_block);
    assert(style_block@ =~= inline_styles(styles@));
    proof {
        reveal_strlit("<script src=\"/mock-routes.js\"></script>");
        reveal_strlit("<script src=\"/scripts.js\"></script>");
        reveal_strlit("<link rel=\"stylesheet\" href=\"/styles.css\" />");
        reveal_strlit("");
    }
    assert(""@ =~= Seq::<char>::empty());
    let step1 = replace_str(index, "<script src=\"/mock-routes.js\"></script>", "");
    assert(step1@ == replace_all(index@, routes_script_tag(), Seq::empty()));
    let step2 = replace_str(step1.as_str(), "<script src=\"/scripts.js\"></script>", script_block.as_str());
    replace_str(step2.as_str(), "<link rel=\"stylesheet\" href=\"/styles.css\" />", style_block.as_str())
}

impl Pages {
    /// A renderer with no routes and the given page, script and style templates.
    pub fn with_templates(index: &str, scripts: &str, styles: &str) -> (p: Pages)
        ensures
            p.links().len() == 0,
            p.index_template()@ == index@,
            p.scripts_template()@ == scripts@,
            p.styles_template()@ == styles@,
    {
        Pages {
            links: Vec::new(),
            index_template: index.to_string(),
            scripts_template: scripts.to_string(),
            styles_template: styles.to_string(),
        }
    }

    /// A renderer with no routes and empty templates.
    pub fn new() -> (p: Pages)
        ensures
            p.links().len() == 0,
            p.index_template()@.len() == 0,
            p.scripts_template()@.len() == 0,
            p.styles_template()@.len() == 0,
    {
        proof {
            reveal_strlit("");
        }
        Pages::with_templates("", "", "")
    }

    /// The registered links.
    pub closed spec fn links(&self) -> Seq<Link> {
        self.links@
    }

    /// The page template.
    pub closed spec fn index_template(&self) -> String {
        self.index_template
    }

    /// The script template.
    pub closed spec fn scripts_template(&self) -> String {
        self.scripts_template
    }

    /// The style template.
    pub closed spec fn styles_template(&self) -> String {
        self.styles_template
    }

    /// Adds a route entry to the home page.
    pub fn push_link(&mut self, method: String, route: String, options: &[String])
        ensures
            final(self).links().len() == old(self).links().len() + 1,
            final(self).links().take(old(self).links().len() as int) == old(self).links(),
            final(self).links().last().method == method,
            final(self).links().last().route == route,
            final(self).links().last().options@.map_values(|s: String| s@) == options@.map_values(
                |s: String| s@,
            ),
            final(self).index_template() == old(self).index_template(),
            final(self).scripts_template() == old(self).scripts_template(),
            final(self).styles_template() == old(self).styles_template(),
    {
        let ghost before = self.links@;
        self.links.push(Link::new(method, route, options));
        assert(self.links@.take(before.len() as int) =~= before);
    }

    /// The registered links, in order.
    pub fn link_list(&self) -> (l: &Vec<Link>)
        ensures
            l@ == self.links(),
    {
        &self.links
    }

    /// The home page with the assets inlined and the pushed links as the
    /// routes' JSON (see [`routes_json`]).
    pub fn render_index(&self) -> (page: String)
        ensures
            page@ == rendered_page(
                self.index_template()@,
                self.scripts_template()@,
                self.styles_template()@,
                routes_json(self.links()),
            ),
    {
        let json = links_json(&self.links);
        render_page(
            self.index_template.as_str(),
            self.scripts_template.as_str(),
            self.styles_template.as_str(),
            json.as_str(),
        )
    }
}

} // verus!
