//! The user's settings file: lines of `KEY=value`.
//!
//! The file is read before each launch, and rewritten when the user saves
//! settings from the setup screen. The caller reads and writes the file; this
//! module parses, merges and renders its text.

use vstd::prelude::*;
use crate::text::{
    find_char,
    line_bounds,
    spec_cut,
    spec_first_index,
    spec_lines,
    spec_trim,
    to_chars,
    trim_bounds,
};

verus! {

/// The setting that one line holds, if it holds one. Blank lines and lines
/// whose first character that is no white space is `#` hold none, nor do lines
/// without `=`. The key is what stands before the first `=`, the value what
/// stands after it, each without the white space around it.
pub open spec fn spec_env_entry(line: Seq<char>) -> Option<(Seq<char>, Seq<char>)> {
    let t = spec_trim(line);
    let eq = spec_first_index(t, '=');
    if t.len() == 0 || t[0] == '#' || !(0 <= eq < t.len()) {
        None
    } else {
        Some((spec_trim(t.subrange(0, eq)), spec_trim(t.subrange(eq + 1, t.len() as int))))
    }
}

/// The settings that a sequence of lines holds, in order. A setting with an
/// empty key is kept only where `keep_unnamed` is set.
pub open spec fn spec_env_entries(lines: Seq<Seq<char>>, keep_unnamed: bool) -> Seq<
    (Seq<char>, Seq<char>),
>
    decreases lines.len(),
{
    if lines.len() == 0 {
        Seq::empty()
    } else {
        let before = spec_env_entries(lines.drop_last(), keep_unnamed);
        match spec_env_entry(lines.last()) {
            Some(entry) => if entry.0.len() > 0 || keep_unnamed {
                before.push(entry)
            } else {
                before
            },
            None => before,
        }
    }
}

/// The settings that are handed to the backend: those of the file that have
/// a key.
pub open spec fn spec_load_user_env(content: Seq<char>) -> Seq<(Seq<char>, Seq<char>)> {
    spec_env_entries(spec_lines(content), false)
}

/// The settings that a save starts from: all that the file holds.
pub open spec fn spec_saved_entries(content: Seq<char>) -> Seq<(Seq<char>, Seq<char>)> {
    spec_env_entries(spec_lines(content), true)
}

/// Whether `entries` hold a setting with key `key`.
pub open spec fn spec_has_key(entries: Seq<(Seq<char>, Seq<char>)>, key: Seq<char>) -> bool {
    exists|i: int| 0 <= i < entries.len() && (#[trigger] entries[i]).0 == key
}

/// The settings among `existing` that `entries` do not set anew, in order.
pub open spec fn spec_kept(
    existing: Seq<(Seq<char>, Seq<char>)>,
    entries: Seq<(Seq<char>, Seq<char>)>,
) -> Seq<(Seq<char>, Seq<char>)>
    decreases existing.len(),
{
    if existing.len() == 0 {
        Seq::empty()
    } else if spec_has_key(entries, existing.last().0) {
        spec_kept(existing.drop_last(), entries)
    } else {
        spec_kept(existing.drop_last(), entries).push(existing.last())
    }
}

/// The settings among `entries` that have a value, in order.
pub open spec fn spec_with_value(entries: Seq<(Seq<char>, Seq<char>)>) -> Seq<
    (Seq<char>, Seq<char>),
>
    decreases entries.len(),
{
    if entries.len() == 0 {
        Seq::empty()
    } else if entries.last().1.len() > 0 {
        spec_with_value(entries.drop_last()).push(entries.last())
    } else {
        spec_with_value(entries.drop_last())
    }
}

/// The settings after a save of `entries` over `existing`: what `existing`
/// holds under other keys, then the new settings that have a value. A new
/// setting without a value so removes its key.
pub open spec fn spec_merge_env(
    existing: Seq<(Seq<char>, Seq<char>)>,
    entries: Seq<(Seq<char>, Seq<char>)>,
) -> Seq<(Seq<char>, Seq<char>)> {
    spec_kept(existing, entries) + spec_with_value(entries)
}

/// The settings as lines `KEY=value`, with a line feed between two of them.
pub open spec fn spec_join_entries(entries: Seq<(Seq<char>, Seq<char>)>) -> Seq<char>
    decreases entries.len(),
{
    if entries.len() == 0 {
        Seq::empty()
    } else if entries.len() == 1 {
        entries[0].0 + "="@ + entries[0].1
    } else {
        spec_join_entries(entries.drop_last()) + "\n"@ + entries.last().0 + "="@ + entries.last().1
    }
}

/// The text of the settings file: the lines, and a line feed at the end.
pub open spec fn spec_render_env(entries: Seq<(Seq<char>, Seq<char>)>) -> Seq<char> {
    spec_join_entries(entries) + "\n"@
}

/// Whether `settings` give `key` a value that is more than white space.
pub open spec fn spec_has_value(settings: Seq<(Seq<char>, Seq<char>)>, key: Seq<char>) -> bool {
    exists|i: int|
        0 <= i < settings.len() && (#[trigger] settings[i]).0 == key && spec_trim(
            settings[i].1,
        ).len() > 0
}

/// Whether the settings hold the credentials of a model: the key of the
/// first provider, or key, model and address of the second.
pub open spec fn spec_api_key_configured(settings: Seq<(Seq<char>, Seq<char>)>) -> bool {
    spec_has_value(settings, "ANTHROPIC_API_KEY"@) || (spec_has_value(settings, "AGNO_API_KEY"@)
        && spec_has_value(settings, "AGNO_MODEL_ID"@) && spec_has_value(
        settings,
        "AGNO_BASE_URL"@,
    ))
}

fn parse_entries(content: &str, keep_unnamed: bool) -> (entries: Vec<(String, String)>)
    ensures
        entries.deep_view() == spec_env_entries(spec_lines(content@), keep_unnamed),
{
    let chars = to_chars(content);
    let bounds = line_bounds(&chars);
    let ghost lines = spec_lines(chars@);
    let mut entries: Vec<(String, String)> = Vec::new();
    let mut i: usize = 0;
    proof {
        assert(lines.take(0) =~= Seq::<Seq<char>>::empty());
        assert(entries.deep_view() =~= spec_env_entries(lines.take(0), keep_unnamed));
    }
    while i < bounds.len()
        invariant
            i <= bounds.len(),
            chars@ == content@,
            lines == spec_lines(chars@),
            spec_cut(chars@, bounds@) == lines,
            forall|k: int|
                0 <= k < bounds.len() ==> (#[trigger] bounds@[k]).0 <= bounds@[k].1 <= chars.len(),
            entries.deep_view() == spec_env_entries(lines.take(i as int), keep_unnamed),
        decreases bounds.len() - i,
    {
        let (a, b) = bounds[i];
        let ghost before = entries.deep_view();
        let ghost line = chars@.subrange(a as int, b as int);
        proof {
            assert(lines.len() == bounds.len());
            assert(lines.take(i + 1).drop_last() =~= lines.take(i as int));
            assert(lines.take(i + 1).last() == spec_cut(chars@, bounds@)[i as int]);
        }
        let (ta, tb) = trim_bounds(&chars, a, b);
        let ghost t = chars@.subrange(ta as int, tb as int);
        if ta < tb && chars[ta] != '#' {
            let eq = find_char(&chars, ta, tb, '=');
            if eq < tb {
                let (ka, kb) = trim_bounds(&chars, ta, eq);
                let (va, vb) = trim_bounds(&chars, eq + 1, tb);
                proof {
                    assert(t.subrange(0, eq - ta) =~= chars@.subrange(ta as int, eq as int));
                    assert(t.subrange(eq - ta + 1, t.len() as int) =~= chars@.subrange(
                        eq + 1,
                        tb as int,
                    ));
                }
                if ka < kb || keep_unnamed {
                    entries.push(
                        (
                            String::from_str(content.substring_char(ka, kb)),
                            String::from_str(content.substring_char(va, vb)),
                        ),
                    );
                    proof {
                        assert(entries.deep_view() =~= before.push(spec_env_entry(line)->0));
                    }
                }
            }
        } else {
            proof {
                assert(t.len() == 0 || t[0] == '#');
            }
        }
        i += 1;
    }
    proof {
        assert(lines.len() == bounds.len());
        assert(lines.take(i as int) =~= lines);
    }
    entries
}

/// The settings of the file's text that are handed to the backend.
pub fn load_user_env(content: &str) -> (entries: Vec<(String, String)>)
    ensures
        entries.deep_view() == spec_load_user_env(content@),
{
    parse_entries(content, false)
}

/// The settings of the file's text from which a save starts.
pub fn saved_entries(content: &str) -> (entries: Vec<(String, String)>)
    ensures
        entries.deep_view() == spec_saved_entries(content@),
{
    parse_entries(content, true)
}

fn has_key(entries: &Vec<(String, String)>, key: &String) -> (yes: bool)
    ensures
        yes == spec_has_key(entries.deep_view(), key@),
{
    let mut j: usize = 0;
    while j < entries.len()
        invariant
            j <= entries.len(),
            forall|k: int| 0 <= k < j ==> (#[trigger] entries.deep_view()[k]).0 != key@,
        decreases entries.len() - j,
    {
        if entries[j].0 == *key {
            assert(entries.deep_view()[j as int].0 == key@);
            return true;
        }
        j += 1;
    }
    false
}

/// The settings after a save of `entries` over `existing`.
pub fn merge_env(existing: &Vec<(String, String)>, entries: &Vec<(String, String)>) -> (merged: Vec<
    (String, String),
>)
    ensures
        merged.deep_view() == spec_merge_env(existing.deep_view(), entries.deep_view()),
{
    let mut merged: Vec<(String, String)> = Vec::new();
    let ghost old_view = existing.deep_view();
    let ghost new_view = entries.deep_view();
    let mut i: usize = 0;
    proof {
        assert(old_view.take(0) =~= Seq::<(Seq<char>, Seq<char>)>::empty());
        assert(merged.deep_view() =~= spec_kept(old_view.take(0), new_view));
    }
    while i < existing.len()
        invariant
            i <= existing.len(),
            old_view == existing.deep_view(),
            new_view == entries.deep_view(),
            merged.deep_view() == spec_kept(old_view.take(i as int), new_view),
        decreases existing.len() - i,
    {
        let ghost before = merged.deep_view();
        proof {
            assert(old_view.take(i + 1).drop_last() =~= old_view.take(i as int));
            assert(old_view.take(i + 1).last() == old_view[i as int]);
        }
        if !has_key(entries, &existing[i].0) {
            merged.push((existing[i].0.clone(), existing[i].1.clone()));
            proof {
                assert(merged.deep_view() =~= before.push(old_view[i as int]));
            }
        }
        i += 1;
    }
    let ghost kept = merged.deep_view();
    proof {
        assert(old_view.take(i as int) =~= old_view);
        assert(new_view.take(0) =~= Seq::<(Seq<char>, Seq<char>)>::empty());
        assert(kept + spec_with_value(new_view.take(0)) =~= kept);
    }
    let mut j: usize = 0;
    while j < entries.len()
        invariant
            j <= entries.len(),
            new_view == entries.deep_view(),
            kept == spec_kept(old_view, new_view),
            merged.deep_view() == kept + spec_with_value(new_view.take(j as int)),
        decreases entries.len() - j,
    {
        let ghost before = merged.deep_view();
        proof {
            assert(new_view.take(j + 1).drop_last() =~= new_view.take(j as int));
            assert(new_view.take(j + 1).last() == new_view[j as int]);
        }
        if !entries[j].1.as_str().is_empty() {
            merged.push((entries[j].0.clone(), entries[j].1.clone()));
            proof {
                assert(merged.deep_view() =~= before.push(new_view[j as int]));
                assert(before.push(new_view[j as int]) =~= kept + spec_with_value(
                    new_view.take(j as int),
                ).push(new_view[j as int]));
            }
        }
        j += 1;
    }
    proof {
        assert(new_view.take(j as int) =~= new_view);
    }
    merged
}

/// The text of the settings file that holds `entries`.
pub fn render_env(entries: &Vec<(String, String)>) -> (content: String)
    ensures
        content@ == spec_render_env(entries.deep_view()),
{
    let ghost view = entries.deep_view();
    let mut content = String::new();
    let mut i: usize = 0;
    proof {
        assert(view.take(0) =~= Seq::<(Seq<char>, Seq<char>)>::empty());
    }
    while i < entries.len()
        invariant
            i <= entries.len(),
            view == entries.deep_view(),
            content@ == spec_join_entries(view.take(i as int)),
        decreases entries.len() - i,
    {
        let ghost before = content@;
        proof {
            assert(view.take(i + 1).drop_last() =~= view.take(i as int));
            assert(view.take(i + 1).last() == view[i as int]);
            assert(view.take(1)[0] == view[0]);
        }
        if i > 0 {
            content.append("\n");
        }
        content.append(entries[i].0.as_str());
        content.append("=");
        content.append(entries[i].1.as_str());
        proof {
            if i == 0 {
                assert(content@ =~= view[0].0 + "="@ + view[0].1);
            }
        }
        i += 1;
    }
    proof {
        assert(view.take(i as int) =~= view);
    }
    content.append("\n");
    content
}

fn has_value(settings: &Vec<(String, String)>, key: &str) -> (yes: bool)
    ensures
        yes == spec_has_value(settings.deep_view(), key@),
{
    let wanted = String::from_str(key);
    let mut i: usize = 0;
    while i < settings.len()
        invariant
            i <= settings.len(),
            wanted@ == key@,
            forall|k: int|
                0 <= k < i ==> !((#[trigger] settings.deep_view()[k]).0 == key@ && spec_trim(
                    settings.deep_view()[k].1,
                ).len() > 0),
        decreases settings.len() - i,
    {
        if settings[i].0 == wanted {
            let value = to_chars(settings[i].1.as_str());
            let (a, b) = trim_bounds(&value, 0, value.len());
            proof {
                assert(value@.subrange(0, value.len() as int) =~= value@);
                assert(spec_trim(value@).len() == b - a);
            }
            if a < b {
                assert(settings.deep_view()[i as int].0 == key@ && spec_trim(
                    settings.deep_view()[i as int].1,
                ).len() > 0);
                return true;
            }
        }
        i += 1;
    }
    false
}

/// Whether `settings` hold the credentials of a model.
pub fn api_key_configured(settings: &Vec<(String, String)>) -> (configured: bool)
    ensures
        configured == spec_api_key_configured(settings.deep_view()),
{
    has_value(settings, "ANTHROPIC_API_KEY") || (has_value(settings, "AGNO_API_KEY") && has_value(
        settings,
        "AGNO_MODEL_ID",
    ) && has_value(settings, "AGNO_BASE_URL"))
}

} // verus!
