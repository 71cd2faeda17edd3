//! Which metric names, label names and namespaces prometheus accepts, and the
//! fully-qualified name that it builds from a namespace and a metric name.

use vstd::prelude::*;
use vstd::string::*;

verus! {

/// A character that may start a metric name: `[a-zA-Z_:]`.
pub open spec fn metric_name_start(c: char) -> bool {
    ('a' <= c && c <= 'z') || ('A' <= c && c <= 'Z') || c == '_' || c == ':'
}

/// A character that may follow the first one of a metric name: `[a-zA-Z0-9_:]`.
pub open spec fn metric_name_char(c: char) -> bool {
    metric_name_start(c) || ('0' <= c && c <= '9')
}

/// A character that may start a label name: `[a-zA-Z_]`.
pub open spec fn label_name_start(c: char) -> bool {
    ('a' <= c && c <= 'z') || ('A' <= c && c <= 'Z') || c == '_'
}

/// A character that may follow the first one of a label name: `[a-zA-Z0-9_]`.
pub open spec fn label_name_char(c: char) -> bool {
    label_name_start(c) || ('0' <= c && c <= '9')
}

/// A metric name that prometheus accepts: `^[a-zA-Z_:][a-zA-Z0-9_:]*$`.
pub open spec fn valid_metric_name(s: Seq<char>) -> bool {
    &&& s.len() > 0
    &&& metric_name_start(s[0])
    &&& forall|i: int| 1 <= i < s.len() ==> metric_name_char(#[trigger] s[i])
}

/// A label name that prometheus accepts: `^[a-zA-Z_][a-zA-Z0-9_]*$`.
pub open spec fn valid_label_name(s: Seq<char>) -> bool {
    &&& s.len() > 0
    &&& label_name_start(s[0])
    &&& forall|i: int| 1 <= i < s.len() ==> label_name_char(#[trigger] s[i])
}

/// A namespace under which every valid metric name stays valid: empty, or
/// itself a valid metric name.
pub open spec fn valid_namespace(s: Seq<char>) -> bool {
    s.len() == 0 || valid_metric_name(s)
}

/// The fully-qualified name that prometheus builds from a namespace and a
/// name (with no subsystem): the non-empty parts joined by `_`, and nothing
/// at all when the name is empty.
pub open spec fn fq_name(namespace: Seq<char>, name: Seq<char>) -> Seq<char> {
    if name.len() == 0 {
        Seq::empty()
    } else if namespace.len() > 0 {
        namespace + seq!['_'] + name
    } else {
        name
    }
}

/// What prometheus asks of a metric's descriptor before it builds the
/// metric: a non-empty help text, a valid fully-qualified name, and valid,
/// pairwise distinct label names.
pub open spec fn desc_accepted(fq: Seq<char>, help: Seq<char>, labels: Seq<Seq<char>>) -> bool {
    &&& help.len() > 0
    &&& valid_metric_name(fq)
    &&& forall|i: int| 0 <= i < labels.len() ==> valid_label_name(#[trigger] labels[i])
    &&& forall|i: int, j: int| 0 <= i < j < labels.len() ==> labels[i] != labels[j]
}

/// The characters of `s` from position `i` on may follow the start of a
/// metric name; written by recursion so that concrete names unfold.
pub open spec fn metric_name_chars_from(s: Seq<char>, i: nat) -> bool
    decreases s.len() - i,
{
    if i >= s.len() {
        true
    } else {
        metric_name_char(s[i as int]) && metric_name_chars_from(s, i + 1)
    }
}

proof fn lemma_chars_from_all(s: Seq<char>, i: nat)
    requires
        metric_name_chars_from(s, i),
    ensures
        forall|j: int| i <= j < s.len() ==> metric_name_char(#[trigger] s[j]),
    decreases s.len() - i,
{
    if i < s.len() {
        lemma_chars_from_all(s, i + 1);
    }
}

/// A name whose first character may start a metric name and whose
/// characters all satisfy the recursive check is a valid metric name.
pub proof fn lemma_metric_name_chars_from(s: Seq<char>)
    requires
        s.len() > 0,
        metric_name_start(s[0]),
        metric_name_chars_from(s, 1),
    ensures
        valid_metric_name(s),
{
    lemma_chars_from_all(s, 1);
}

/// Under a valid namespace, a valid metric name stays valid once it is
/// fully qualified.
pub proof fn lemma_fq_name_valid(namespace: Seq<char>, name: Seq<char>)
    requires
        valid_namespace(namespace),
        valid_metric_name(name),
    ensures
        valid_metric_name(fq_name(namespace, name)),
{
    if namespace.len() > 0 {
        let fq = namespace + seq!['_'] + name;
        assert forall|i: int| 1 <= i < fq.len() implies metric_name_char(#[trigger] fq[i]) by {
            if i < namespace.len() {
                assert(fq[i] == namespace[i]);
            } else if i == namespace.len() {
                assert(fq[i] == '_');
            } else {
                assert(fq[i] == name[i - namespace.len() - 1]);
                if i - namespace.len() - 1 > 0 {
                    assert(metric_name_char(name[i - namespace.len() - 1]));
                }
            }
        }
        assert(fq[0] == namespace[0]);
    }
}

proof fn lemma_invalid_namespace_spoils(namespace: Seq<char>, name: Seq<char>)
    requires
        !valid_namespace(namespace),
        name.len() > 0,
    ensures
        !valid_metric_name(fq_name(namespace, name)),
{
    let fq = namespace + seq!['_'] + name;
    assert(fq_name(namespace, name) == fq);
    if !metric_name_start(namespace[0]) {
        assert(fq[0] == namespace[0]);
    } else {
        let i = choose|i: int| 1 <= i < namespace.len() && !metric_name_char(#[trigger] namespace[i]);
        assert(fq[i] == namespace[i]);
    }
}

/// Law: the namespaces accepted are exactly those that keep every valid
/// metric name valid once it is put behind them. A namespace is valid if and
/// only if, for every valid metric name, the fully-qualified name is valid
/// too; an invalid namespace spoils every name.
pub proof fn lemma_valid_namespace_exactly(namespace: Seq<char>)
    ensures
        valid_namespace(namespace) <==> (forall|name: Seq<char>|
            valid_metric_name(name) ==> #[trigger] valid_metric_name(fq_name(namespace, name))),
        !valid_namespace(namespace) ==> forall|name: Seq<char>|
            name.len() > 0 ==> !#[trigger] valid_metric_name(fq_name(namespace, name)),
{
    if valid_namespace(namespace) {
        assert forall|name: Seq<char>| valid_metric_name(name) implies #[trigger] valid_metric_name(
            fq_name(namespace, name),
        ) by {
            lemma_fq_name_valid(namespace, name);
        }
    } else {
        assert forall|name: Seq<char>| name.len() > 0 implies !#[trigger] valid_metric_name(
            fq_name(namespace, name),
        ) by {
            lemma_invalid_namespace_spoils(namespace, name);
        }
        let a = seq!['a'];
        assert(valid_metric_name(a));
        lemma_invalid_namespace_spoils(namespace, a);
    }
}

fn is_metric_name_start(c: char) -> (r: bool)
    ensures
        r == metric_name_start(c),
{
    ('a' <= c && c <= 'z') || ('A' <= c && c <= 'Z') || c == '_' || c == ':'
}

fn is_metric_name_char(c: char) -> (r: bool)
    ensures
        r == metric_name_char(c),
{
    is_metric_name_start(c) || ('0' <= c && c <= '9')
}

/// Whether `namespace` keeps every valid metric name valid once the name is
/// put behind it (see `valid_namespace`).
pub fn is_valid_namespace(namespace: &str) -> (r: bool)
    ensures
        r == valid_namespace(namespace@),
{
    let n = namespace.unicode_len();
    if n == 0 {
        return true;
    }
    if !is_metric_name_start(namespace.get_char(0)) {
        return false;
    }
    let mut i: usize = 1;
    while i < n
        invariant
            n == namespace@.len(),
            1 <= i <= n,
            metric_name_start(namespace@[0]),
            forall|j: int| 1 <= j < i ==> metric_name_char(#[trigger] namespace@[j]),
        decreases n - i,
    {
        if !is_metric_name_char(namespace.get_char(i)) {
            return false;
        }
        i = i + 1;
    }
    true
}

} // verus!
