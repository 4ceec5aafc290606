//! The pieces that every describe view is made of: optional values, lists
//! of values under one label, the identity section and the annotations.

use crate::clock::{rfc2822, rfc2822_representable, rfc2822_text};
use crate::model::{IntOrString, ObjectMeta, OwnerReference, Pairs, Time};
use crate::text::{
    continued, continued_text, field, field_line, field_text, int_string, int_text,
    is_json_blob, is_json_blob_text, join, join_text, push_line, section, section_lines,
    string_of, truncate, truncated_text,
};
use vstd::prelude::*;
use vstd::string::*;

verus! {

broadcast use vstd::string::group_string_axioms;

/// The value, or `default` when there is none.
pub open spec fn or_text(v: Option<String>, default: Seq<char>) -> Seq<char> {
    match v {
        Some(s) => s@,
        None => default,
    }
}

/// The value, or `<none>` when there is none.
pub open spec fn opt_text(v: Option<String>) -> Seq<char> {
    or_text(v, "<none>"@)
}

/// The value, or `default` when there is none.
pub fn or_str<'a>(v: &'a Option<String>, default: &'a str) -> (r: &'a str)
    ensures
        r@ == or_text(*v, default@),
{
    match v {
        Some(s) => s.as_str(),
        None => default,
    }
}

/// The value, or `<none>` when there is none.
pub fn opt_str(v: &Option<String>) -> (r: &str)
    ensures
        r@ == opt_text(*v),
{
    or_str(v, "<none>")
}

/// The number, or `default` when there is none, as decimal text.
pub open spec fn count_text(v: Option<i32>, default: i32) -> Seq<char> {
    match v {
        Some(n) => int_text(n as int),
        None => int_text(default as int),
    }
}

/// The number, or `default` when there is none, as decimal text.
pub fn count_string(v: Option<i32>, default: i32) -> (r: String)
    ensures
        r@ == count_text(v, default),
{
    match v {
        Some(n) => int_string(n as i64),
        None => int_string(default as i64),
    }
}

/// A number or a name, as text.
pub open spec fn int_or_string_text(v: IntOrString) -> Seq<char> {
    match v {
        IntOrString::Int(n) => int_text(n as int),
        IntOrString::String(s) => s@,
    }
}

/// A number or a name, as text.
pub fn int_or_str(v: &IntOrString) -> (r: String)
    ensures
        r@ == int_or_string_text(*v),
{
    match v {
        IntOrString::Int(n) => int_string(*n as i64),
        IntOrString::String(s) => s.clone(),
    }
}

/// A point in time, or `<none>`.
pub open spec fn time_text(t: Option<Time>) -> Seq<char> {
    match t {
        Some(s) => rfc2822_text(s.secs, s.nanos),
        None => "<none>"@,
    }
}

/// A point in time that RFC 2822 text can show, or none.
pub open spec fn time_ok(t: Option<Time>) -> bool {
    match t {
        Some(s) => rfc2822_representable(s),
        None => true,
    }
}

/// A point in time, or `<none>`.
pub fn time_string(t: Option<Time>) -> (r: String)
    requires
        time_ok(t),
    ensures
        r@ == time_text(t),
{
    match t {
        Some(s) => rfc2822(s),
        None => string_of("<none>"),
    }
}

/// Values listed under one label: the first beside the label, each other
/// one on a line of its own below it, and `<none>` beside the label when
/// there are no values.
pub open spec fn multiline_lines(label: Seq<char>, entries: Seq<Seq<char>>) -> Seq<Seq<char>> {
    if entries.len() == 0 {
        seq![field_text(label, "<none>"@)]
    } else {
        Seq::new(
            entries.len(),
            |i: int|
                if i == 0 {
                    field_text(label, entries[0])
                } else {
                    continued_text(entries[i])
                },
        )
    }
}

/// Appends values listed under one label.
pub fn push_multiline(lines: &mut Vec<String>, label: &str, entries: &Vec<String>)
    ensures
        final(lines).deep_view() == old(lines).deep_view() + multiline_lines(
            label@,
            entries.deep_view(),
        ),
{
    let n = entries.len();
    if n == 0 {
        field(lines, label, "<none>");
        proof {
            assert(lines.deep_view() =~= old(lines).deep_view() + multiline_lines(
                label@,
                entries.deep_view(),
            ));
        }
    } else {
        let ghost want = multiline_lines(label@, entries.deep_view());
        field(lines, label, entries[0].as_str());
        let mut i: usize = 1;
        proof {
            assert(lines.deep_view() =~= old(lines).deep_view() + want.take(1));
        }
        while i < n
            invariant
                n == entries@.len(),
                1 <= i <= n,
                want == multiline_lines(label@, entries.deep_view()),
                lines.deep_view() == old(lines).deep_view() + want.take(i as int),
            decreases n - i,
        {
            continued(lines, entries[i].as_str());
            proof {
                assert(lines.deep_view() =~= old(lines).deep_view() + want.take(i + 1));
            }
            i += 1;
        }
        proof {
            assert(want.take(n as int) =~= want);
        }
    }
}

/// A label and its value, as a map entry shows them.
pub open spec fn pair_text(p: (String, String)) -> Seq<char> {
    p.0@ + "  =  "@ + p.1@
}

/// The entries of a map, or none for a missing map.
pub open spec fn pairs_texts(map: Option<Pairs>) -> Seq<Seq<char>> {
    match map {
        Some(m) => Seq::new(m@.len(), |i: int| pair_text(m@[i])),
        None => Seq::empty(),
    }
}

/// Appends the entries of a map under one label.
pub fn multiline_labels(lines: &mut Vec<String>, label: &str, map: &Option<Pairs>)
    ensures
        final(lines).deep_view() == old(lines).deep_view() + multiline_lines(
            label@,
            pairs_texts(*map),
        ),
{
    let mut texts: Vec<String> = Vec::new();
    match map {
        Some(m) => {
            let m = m.entries();
            let n = m.len();
            let mut i: usize = 0;
            while i < n
                invariant
                    n == m@.len(),
                    i <= n,
                    texts.deep_view() == Seq::new(i as nat, |j: int| pair_text(m@[j])),
                decreases n - i,
            {
                let mut t = m[i].0.clone();
                t.append("  =  ");
                t.append(m[i].1.as_str());
                push_line(&mut texts, t);
                proof {
                    assert(texts.deep_view() =~= Seq::new((i + 1) as nat, |j: int| pair_text(m@[j])));
                }
                i += 1;
            }
        },
        None => {
            proof {
                assert(texts.deep_view() =~= Seq::<Seq<char>>::empty());
            }
        },
    }
    proof {
        assert(texts.deep_view() =~= pairs_texts(*map));
    }
    push_multiline(lines, label, &texts);
}

/// The annotations that the view lists: those whose value does not read as
/// a JSON object or array, in the order of the map.
pub open spec fn listed_annotations(m: Seq<(String, String)>) -> Seq<(String, String)>
    decreases m.len(),
{
    if m.len() == 0 {
        Seq::empty()
    } else if is_json_blob_text(m.last().1@) {
        listed_annotations(m.drop_last())
    } else {
        listed_annotations(m.drop_last()).push(m.last())
    }
}

/// An annotation as the view lists it: the key and the shortened value.
pub open spec fn annotation_text(p: (String, String)) -> Seq<char> {
    p.0@ + ": "@ + truncated_text(p.1@)
}

/// The listed annotations as text, or none for a missing map.
pub open spec fn annotations_texts(map: Option<Pairs>) -> Seq<Seq<char>> {
    match map {
        Some(m) => {
            let shown = listed_annotations(m@);
            Seq::new(shown.len(), |i: int| annotation_text(shown[i]))
        },
        None => Seq::empty(),
    }
}

/// An annotation line: beside the label for the first annotation, in the
/// blank label column for the others.
pub open spec fn annotation_display_text(
    label: Seq<char>,
    key: Seq<char>,
    value: Seq<char>,
    first: bool,
) -> Seq<char> {
    let display = key + ": "@ + truncated_text(value);
    if first {
        field_text(label, display)
    } else {
        continued_text(display)
    }
}

/// An annotation line.
pub fn annotation_display(label: &str, key: &str, value: &str, first: bool) -> (r: String)
    ensures
        r@ == annotation_display_text(label@, key@, value@, first),
{
    let mut display = string_of(key);
    display.append(": ");
    let short = truncate(value);
    display.append(short.as_str());
    if first {
        field_line(label, display.as_str())
    } else {
        proof {
            reveal_strlit("");
        }
        field_line("", display.as_str())
    }
}

/// Appends the annotations under one label, leaving out those whose value
/// reads as JSON, and `<none>` when none is left.
pub fn annotations_lines(lines: &mut Vec<String>, label: &str, anns: &Option<Pairs>)
    ensures
        final(lines).deep_view() == old(lines).deep_view() + multiline_lines(
            label@,
            annotations_texts(*anns),
        ),
{
    match anns {
        None => {
            field(lines, label, "<none>");
            proof {
                assert(lines.deep_view() =~= old(lines).deep_view() + multiline_lines(
                    label@,
                    annotations_texts(*anns),
                ));
            }
        },
        Some(pairs) => {
            let m = pairs.entries();
            let mut shown: Vec<String> = Vec::new();
            let n = m.len();
            let mut i: usize = 0;
            proof {
                assert(m@.take(0) =~= Seq::<(String, String)>::empty());
            }
            while i < n
                invariant
                    n == m@.len(),
                    i <= n,
                    shown.deep_view() == Seq::new(
                        listed_annotations(m@.take(i as int)).len(),
                        |j: int| annotation_text(listed_annotations(m@.take(i as int))[j]),
                    ),
                decreases n - i,
            {
                proof {
                    assert(m@.take(i + 1).drop_last() =~= m@.take(i as int));
                    assert(m@.take(i + 1).last() == m@[i as int]);
                }
                if !is_json_blob(m[i].1.as_str()) {
                    let mut t = m[i].0.clone();
                    t.append(": ");
                    let short = truncate(m[i].1.as_str());
                    t.append(short.as_str());
                    push_line(&mut shown, t);
                }
                proof {
                    let after = listed_annotations(m@.take(i + 1));
                    assert(shown.deep_view() =~= Seq::new(
                        after.len(),
                        |j: int| annotation_text(after[j]),
                    ));
                }
                i += 1;
            }
            proof {
                assert(m@.take(n as int) =~= m@);
                assert(shown.deep_view() =~= annotations_texts(*anns));
            }
            push_multiline(lines, label, &shown);
        },
    }
}

/// The owners of an object, as `kind/name` joined with commas, or `<none>`.
pub open spec fn owners_text(refs: Option<Vec<OwnerReference>>) -> Seq<char> {
    match refs {
        Some(o) => join_text(
            Seq::new(o@.len(), |i: int| o@[i].kind@ + "/"@ + o@[i].name@),
            ", "@,
        ),
        None => "<none>"@,
    }
}

fn owners_string(refs: &Option<Vec<OwnerReference>>) -> (r: String)
    ensures
        r@ == owners_text(*refs),
{
    match refs {
        Some(o) => {
            let mut texts: Vec<String> = Vec::new();
            let n = o.len();
            let mut i: usize = 0;
            while i < n
                invariant
                    n == o@.len(),
                    i <= n,
                    texts.deep_view() == Seq::new(
                        i as nat,
                        |j: int| o@[j].kind@ + "/"@ + o@[j].name@,
                    ),
                decreases n - i,
            {
                let mut t = o[i].kind.clone();
                t.append("/");
                t.append(o[i].name.as_str());
                push_line(&mut texts, t);
                proof {
                    assert(texts.deep_view() =~= Seq::new(
                        (i + 1) as nat,
                        |j: int| o@[j].kind@ + "/"@ + o@[j].name@,
                    ));
                }
                i += 1;
            }
            join(&texts, ", ")
        },
        None => string_of("<none>"),
    }
}

/// The metadata that the identity section can show.
pub open spec fn meta_ok(meta: ObjectMeta) -> bool {
    time_ok(meta.creation_timestamp)
}

/// The identity section: name, namespace, creation time, labels,
/// annotations and owners.
pub open spec fn identity_lines(meta: ObjectMeta) -> Seq<Seq<char>> {
    section_lines("Identity"@, true) + seq![
        field_text("Name"@, opt_text(meta.name)),
        field_text("Namespace"@, opt_text(meta.namespace)),
        field_text("Created"@, time_text(meta.creation_timestamp)),
    ] + multiline_lines("Labels"@, pairs_texts(meta.labels)) + multiline_lines(
        "Annotations"@,
        annotations_texts(meta.annotations),
    ) + seq![field_text("Owned by"@, owners_text(meta.owner_references))]
}

/// Appends the identity section of an object.
pub fn section_identity(lines: &mut Vec<String>, meta: &ObjectMeta)
    requires
        meta_ok(*meta),
    ensures
        final(lines).deep_view() == old(lines).deep_view() + identity_lines(*meta),
{
    section(lines, "Identity", true);
    field(lines, "Name", opt_str(&meta.name));
    field(lines, "Namespace", opt_str(&meta.namespace));
    let created = time_string(meta.creation_timestamp);
    field(lines, "Created", created.as_str());
    multiline_labels(lines, "Labels", &meta.labels);
    annotations_lines(lines, "Annotations", &meta.annotations);
    let owner = owners_string(&meta.owner_references);
    field(lines, "Owned by", owner.as_str());
    proof {
        assert(lines.deep_view() =~= old(lines).deep_view() + identity_lines(*meta));
    }
}

} // verus!
