//! The review of the plan before it is written.

use vstd::prelude::*;

use crate::generator::domain::{GeneratorFlow, MainConfigSelection, WriteOpView, WritePlan};
use crate::generator::paths::route_plan;
use crate::generator::tui::app::{
    config_review_plan, went_back, with_route_defaults, Key, WizardAction, WizardApp,
};
use crate::generator::tui::components::common::{go_back, is_back_key, quit_on_escape};
use crate::text::{chars_of, lines_of, push_all, push_str, seqs_view, string_of, text_lines};

verus! {

/// The review component.
pub struct Review;

/// `b` is `a` after entering the review: the plan of the selected flow is built
/// (the main configuration includes its route defaults), the scroll is reset
/// and the prompt shown.
pub open spec fn review_entered(a: WizardApp, b: WizardApp) -> bool {
    &&& b.status@ == "Review plan, then press Enter or w to write"@
    &&& if a.selected_flow == Some(GeneratorFlow::MainConfig) {
        let sel = with_route_defaults(a.main_config_selection);
        &&& b == (WizardApp {
            plan: b.plan,
            main_config_selection: sel,
            review_scroll: 0,
            status: b.status,
            ..a
        })
        &&& b.plan@ == config_review_plan(sel)
    } else {
        &&& b == (WizardApp { plan: b.plan, review_scroll: 0, status: b.status, ..a })
        &&& b.plan@ == route_plan(a.folder@, a.route_selection)
    }
}

/// `b` and `action` after a key press on the review: Up/Down scroll, `f`
/// toggles overwriting, Enter or `w` asks for the plan to be written.
pub open spec fn review_key(a: WizardApp, b: WizardApp, key: Key, action: WizardAction) -> bool {
    if key == Key::Enter || key == Key::Char('w') {
        b == a && action == WizardAction::Write
    } else {
        &&& action == WizardAction::Continue
        &&& if key == Key::Esc {
            b == (WizardApp { done: true, ..a })
        } else if is_back_key(key) {
            went_back(a, b)
        } else if key == Key::Up {
            b == (WizardApp {
                review_scroll: if a.review_scroll == 0 {
                    0
                } else {
                    (a.review_scroll - 1) as u16
                },
                ..a
            })
        } else if key == Key::Down {
            b == (WizardApp {
                review_scroll: if a.review_scroll == u16::MAX {
                    u16::MAX
                } else {
                    (a.review_scroll + 1) as u16
                },
                ..a
            })
        } else if key == Key::Char('f') {
            &&& b == (WizardApp { force: !a.force, status: b.status, ..a })
            &&& b.status@ == (if b.force {
                "Force overwrite: true"@
            } else {
                "Force overwrite: false"@
            })
        } else {
            b == a
        }
    }
}

impl Review {
    /// Builds the plan of the selected flow, resets the scroll and shows the prompt.
    pub fn enter(&self, app: &mut WizardApp)
        ensures
            review_entered(*old(app), *final(app)),
    {
        if app.selected_flow == Some(GeneratorFlow::MainConfig) {
            app.build_config_review();
        } else {
            app.build_route_review();
        }
        app.review_scroll = 0;
        app.status = "Review plan, then press Enter or w to write".to_string();
    }

    /// Escape quits, a back key returns, Up/Down scroll, `f` toggles overwriting,
    /// Enter or `w` returns [`WizardAction::Write`].
    pub fn handle_key(&self, app: &mut WizardApp, key: Key) -> (action: WizardAction)
        ensures
            review_key(*old(app), *final(app), key, action),
    {
        if key == Key::Enter || key == Key::Char('w') {
            return WizardAction::Write;
        }
        if quit_on_escape(app, key) || go_back(app, key) {
            return WizardAction::Continue;
        }
        if key == Key::Up {
            app.move_review_scroll_up();
        } else if key == Key::Down {
            app.move_review_scroll_down();
        } else if key == Key::Char('f') {
            app.toggle_force();
        }
        WizardAction::Continue
    }
}


/// The review lines of one operation: its kind and path, then the file's
/// lines, indented.
pub open spec fn operation_lines(op: WriteOpView) -> Seq<Seq<char>> {
    match op.content {
        Some(c) => seq!["file "@ + op.path] + text_lines(c).map_values(|l: Seq<char>| "  "@ + l),
        None => seq!["dir "@ + op.path],
    }
}

/// The review lines of a plan's operations, in order.
pub open spec fn plan_lines(ops: Seq<WriteOpView>) -> Seq<Seq<char>>
    decreases ops.len(),
{
    if ops.len() == 0 {
        Seq::empty()
    } else {
        plan_lines(ops.drop_last()) + operation_lines(ops.last())
    }
}

/// The review text: whether targets are overwritten, then the plan.
pub open spec fn review_text(force: bool, ops: Seq<WriteOpView>) -> Seq<Seq<char>> {
    seq![
        if force {
            "Force overwrite: true"@
        } else {
            "Force overwrite: false"@
        },
    ] + plan_lines(ops)
}

/// The review text of a plan.
pub fn review_lines(force: bool, plan: &WritePlan) -> (lines: Vec<String>)
    ensures
        lines@.map_values(|l: String| l@) == review_text(force, plan@),
{
    let mut lines: Vec<String> = Vec::new();
    lines.push(if force {
        "Force overwrite: true".to_string()
    } else {
        "Force overwrite: false".to_string()
    });
    let mut i: usize = 0;
    assert(plan@.take(0) =~= Seq::<WriteOpView>::empty());
    assert(plan_lines(plan@.take(0)) =~= Seq::<Seq<char>>::empty());
    assert(lines@.map_values(|l: String| l@) =~= review_text(force, plan@.take(0)));
    while i < plan.operations.len()
        invariant
            i <= plan.operations.len(),
            lines@.map_values(|l: String| l@) == review_text(force, plan@.take(i as int)),
        decreases plan.operations.len() - i,
    {
        let ghost before = lines@.map_values(|l: String| l@);
        let op = &plan.operations[i];
        assert(plan@.take(i + 1).drop_last() =~= plan@.take(i as int));
        assert(plan@.take(i + 1).last() == op@);
        let mut label = chars_of(if op.content.is_some() {
            "file "
        } else {
            "dir "
        });
        push_str(&mut label, op.path.as_str());
        lines.push(string_of(&label));
        match &op.content {
            Some(content) => {
                let file_lines = lines_of(&chars_of(content.as_str()));
                let ghost base = lines@.map_values(|l: String| l@);
                let mut k: usize = 0;
                while k < file_lines.len()
                    invariant
                        k <= file_lines.len(),
                        lines@.map_values(|l: String| l@) == base + seqs_view(file_lines@).take(
                            k as int,
                        ).map_values(|l: Seq<char>| "  "@ + l),
                    decreases file_lines.len() - k,
                {
                    let mut line = chars_of("  ");
                    push_all(&mut line, &file_lines[k]);
                    let ghost prev = lines@.map_values(|l: String| l@);
                    lines.push(string_of(&line));
                    assert(lines@.map_values(|l: String| l@) =~= prev.push("  "@ + file_lines@[k as int]@));
                    assert(seqs_view(file_lines@).take(k + 1).map_values(|l: Seq<char>| "  "@ + l)
                        =~= seqs_view(file_lines@).take(k as int).map_values(|l: Seq<char>| "  "@ + l).push(
                        "  "@ + file_lines@[k as int]@,
                    ));
                    k += 1;
                }
                assert(seqs_view(file_lines@).take(file_lines.len() as int) =~= seqs_view(file_lines@));
                assert(lines@.map_values(|l: String| l@) =~= before + operation_lines(op@));
            },
            None => {
                assert(lines@.map_values(|l: String| l@) =~= before + operation_lines(op@));
            },
        }
        assert(review_text(force, plan@.take(i + 1)) =~= review_text(force, plan@.take(i as int)) + operation_lines(op@));
        i += 1;
    }
    assert(plan@.take(plan.operations.len() as int) =~= plan@);
    lines
}

} // verus!
