use vstd::prelude::*;
use vstd::string::*;

verus! {

/// The part of a container's recorded state that describes its filesystem
/// and its labels.
#[derive(Debug)]
pub struct Config {
    pub rootfs: String,
    pub labels: Vec<String>,
}

/// The state of a container as it is kept in the container's state file.
#[derive(Debug)]
pub struct State {
    pub id: String,
    pub init_process_pid: u32,
    pub created: String,
    pub config: Config,
}

/// The characters that start the label holding the bundle path.
pub open spec fn bundle_label_prefix() -> Seq<char> {
    seq!['b', 'u', 'n', 'd', 'l', 'e', '=']
}

/// A label names the bundle when its text before the first `=` is `bundle`,
/// that is, when it starts with `bundle=`.
pub open spec fn is_bundle_label(label: Seq<char>) -> bool {
    bundle_label_prefix().is_prefix_of(label)
}

/// The value of a bundle label: what follows `bundle=`.
pub open spec fn bundle_label_value(label: Seq<char>) -> Seq<char> {
    label.skip(bundle_label_prefix().len() as int)
}

/// The label that records the annotation `key` with `value`.
pub open spec fn annotation_label(key: Seq<char>, value: Seq<char>) -> Seq<char> {
    key + seq!['='] + value
}

/// One `key=value` label per annotation, in their order.
pub open spec fn annotation_labels_of(annotations: Seq<(Seq<char>, Seq<char>)>) -> Seq<Seq<char>> {
    annotations.map_values(|a: (Seq<char>, Seq<char>)| annotation_label(a.0, a.1))
}

/// The labels written for `annotations` (in their order) and `bundle`:
/// one `key=value` label per annotation, then `bundle=<bundle>`.
pub open spec fn labels_for(annotations: Seq<(Seq<char>, Seq<char>)>, bundle: Seq<char>) -> Seq<
    Seq<char>,
> {
    annotation_labels_of(annotations).push(bundle_label_prefix() + bundle)
}

/// The labels that are not bundle labels, in their order.
pub open spec fn annotation_labels(labels: Seq<Seq<char>>) -> Seq<Seq<char>> {
    labels.filter(|l: Seq<char>| !is_bundle_label(l))
}

/// The value of the last bundle label, or the empty text when there is none.
pub open spec fn bundle_of(labels: Seq<Seq<char>>) -> Seq<char>
    decreases labels.len(),
{
    if labels.len() == 0 {
        Seq::empty()
    } else if is_bundle_label(labels.last()) {
        bundle_label_value(labels.last())
    } else {
        bundle_of(labels.drop_last())
    }
}

/// Returns the value after `bundle=` when `label` is a bundle label.
fn bundle_value(label: &String) -> (res: Option<String>)
    ensures
        res is Some <==> is_bundle_label(label@),
        res matches Some(v) ==> v@ == bundle_label_value(label@),
{
    let s = label.as_str();
    let n = s.unicode_len();
    if n < 7 {
        return None;
    }
    if s.get_char(0) == 'b' && s.get_char(1) == 'u' && s.get_char(2) == 'n' && s.get_char(3) == 'd'
        && s.get_char(4) == 'l' && s.get_char(5) == 'e' && s.get_char(6) == '=' {
        assert(bundle_label_prefix() =~= label@.subrange(0, 7));
        let rest = s.substring_char(7, n);
        assert(rest@ =~= bundle_label_value(label@));
        Some(rest.to_owned())
    } else {
        proof {
            if is_bundle_label(label@) {
                assert(label@.subrange(0, 7)[0] == 'b');
                assert(label@.subrange(0, 7)[1] == 'u');
                assert(label@.subrange(0, 7)[2] == 'n');
                assert(label@.subrange(0, 7)[3] == 'd');
                assert(label@.subrange(0, 7)[4] == 'l');
                assert(label@.subrange(0, 7)[5] == 'e');
                assert(label@.subrange(0, 7)[6] == '=');
            }
        }
        None
    }
}

/// Builds the labels recorded for a container: `key=value` for each
/// annotation, in the order given, then `bundle=<bundle>`.
pub fn new_labels(annos: &Vec<(String, String)>, bundle: &String) -> (labels: Vec<String>)
    ensures
        labels.deep_view() == labels_for(annos.deep_view(), bundle@),
{
    proof {
        reveal_strlit("bundle=");
        assert("bundle="@ =~= bundle_label_prefix());
    }
    let ghost pairs = annos.deep_view();
    let mut labels: Vec<String> = Vec::new();
    let n = annos.len();
    for i in 0..n
        invariant
            n == annos.len(),
            pairs == annos.deep_view(),
            labels.deep_view() =~= annotation_labels_of(pairs.take(i as int)),
    {
        let ghost before = labels.deep_view();
        proof {
            reveal_strlit("=");
            assert("="@ =~= seq!['=']);
        }
        let mut label = annos[i].0.clone();
        label.append("=");
        label.append(annos[i].1.as_str());
        assert(pairs[i as int] == (annos[i as int].0@, annos[i as int].1@));
        assert(label@ == annotation_label(pairs[i as int].0, pairs[i as int].1));
        labels.push(label);
        assert(labels.deep_view() =~= before.push(label@));
        assert(annotation_labels_of(pairs.take(i + 1)) =~= annotation_labels_of(
            pairs.take(i as int),
        ).push(annotation_label(pairs[i as int].0, pairs[i as int].1)));
    }
    let ghost before = labels.deep_view();
    let mut last = "bundle=".to_owned();
    last.append(bundle.as_str());
    labels.push(last);
    assert(labels.deep_view() =~= before.push(last@));
    assert(pairs.take(n as int) =~= pairs);
    labels
}

impl State {
    /// Splits the labels into the annotations (every label that is not a
    /// bundle label, in order) and the bundle path (the value of the last
    /// bundle label, empty when there is none).
    pub fn annotations(&self) -> (res: (Vec<String>, String))
        ensures
            res.0.deep_view() == annotation_labels(self.config.labels.deep_view()),
            res.1@ == bundle_of(self.config.labels.deep_view()),
    {
        let labels = &self.config.labels;
        let ghost all = labels.deep_view();
        let mut annos: Vec<String> = Vec::new();
        let mut bundle: String = String::new();
        let n = labels.len();
        for i in 0..n
            invariant
                n == labels.len(),
                all == labels.deep_view(),
                annos.deep_view() == annotation_labels(all.take(i as int)),
                bundle@ == bundle_of(all.take(i as int)),
        {
            let ghost prefix = all.take(i as int);
            let ghost next = all.take(i + 1);
            assert(next.drop_last() =~= prefix);
            assert(next.last() == labels[i as int]@);
            proof {
                reveal_with_fuel(Seq::<_>::filter, 1);
            }
            match bundle_value(&labels[i]) {
                Some(v) => {
                    bundle = v;
                },
                None => {
                    annos.push(labels[i].clone());
                    assert(annos.deep_view() =~= annotation_labels(prefix).push(labels[i as int]@));
                },
            }
        }
        assert(all.take(n as int) =~= all);
        (annos, bundle)
    }
}

/// Reading back the labels written for `annotations` and `bundle` gives
/// `bundle` as the bundle path, and as annotations the written `key=value`
/// labels, except those that themselves read as bundle labels.
pub proof fn lemma_labels_round_trip(annotations: Seq<(Seq<char>, Seq<char>)>, bundle: Seq<char>)
    ensures
        bundle_of(labels_for(annotations, bundle)) == bundle,
        annotation_labels(labels_for(annotations, bundle)) == annotation_labels(
            annotation_labels_of(annotations),
        ),
{
    let written = annotation_labels_of(annotations);
    let last = bundle_label_prefix() + bundle;
    let labels = labels_for(annotations, bundle);
    assert(labels.drop_last() =~= written);
    assert(labels.last() == last);
    assert(last.subrange(0, 7) =~= bundle_label_prefix());
    assert(bundle_label_value(last) =~= bundle);
    reveal_with_fuel(Seq::<_>::filter, 1);
}

/// When no annotation is written as a bundle label (no key is `bundle` and
/// none starts with `bundle=`), reading back gives every annotation label,
/// in the order written, and the bundle path.
pub proof fn lemma_labels_round_trip_plain(annotations: Seq<(Seq<char>, Seq<char>)>, bundle: Seq<char>)
    requires
        forall|i: int|
            0 <= i < annotations.len() ==> !is_bundle_label(
                #[trigger] annotation_label(annotations[i].0, annotations[i].1),
            ),
    ensures
        bundle_of(labels_for(annotations, bundle)) == bundle,
        annotation_labels(labels_for(annotations, bundle)) == annotation_labels_of(annotations),
{
    lemma_labels_round_trip(annotations, bundle);
    let written = annotation_labels_of(annotations);
    let pred = |l: Seq<char>| !is_bundle_label(l);
    assert forall|i: int| 0 <= i < written.len() implies pred(#[trigger] written[i]) by {
        assert(written[i] == annotation_label(annotations[i].0, annotations[i].1));
    }
    lemma_filter_all(written, pred);
}

/// Filtering by a predicate that every element meets keeps the sequence.
proof fn lemma_filter_all(s: Seq<Seq<char>>, pred: spec_fn(Seq<char>) -> bool)
    requires
        forall|i: int| 0 <= i < s.len() ==> pred(#[trigger] s[i]),
    ensures
        s.filter(pred) == s,
    decreases s.len(),
{
    reveal_with_fuel(Seq::<_>::filter, 1);
    if s.len() > 0 {
        let rest = s.drop_last();
        assert forall|i: int| 0 <= i < rest.len() implies pred(#[trigger] rest[i]) by {
            assert(rest[i] == s[i]);
        }
        lemma_filter_all(rest, pred);
        assert(s.filter(pred) =~= rest.push(s.last()));
        assert(rest.push(s.last()) =~= s);
    }
}

} // verus!
