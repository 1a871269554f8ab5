use vstd::prelude::*;

verus! {

/// The characters of each string of a sequence.
pub open spec fn texts_model(v: Seq<String>) -> Seq<Seq<char>> {
    v.map_values(|s: String| s@)
}

/// The characters of each key and value of a sequence of pairs.
pub open spec fn pairs_model(v: Seq<(String, String)>) -> Seq<(Seq<char>, Seq<char>)> {
    v.map_values(|p: (String, String)| (p.0@, p.1@))
}

/// Lexicographic order on strings, by code point: the order of `String`'s `Ord`.
pub open spec fn text_less(a: Seq<char>, b: Seq<char>) -> bool
    decreases a.len(),
{
    if a.len() == 0 {
        b.len() > 0
    } else if b.len() == 0 {
        false
    } else if a[0] != b[0] {
        (a[0] as u32) < (b[0] as u32)
    } else {
        text_less(a.drop_first(), b.drop_first())
    }
}

/// The keys of a sequence of pairs stand in strictly ascending order.
pub open spec fn keys_ascending(ms: Seq<(Seq<char>, Seq<char>)>) -> bool {
    forall|i: int| 0 <= i < ms.len() - 1 ==> #[trigger] text_less(ms[i].0, ms[i + 1].0)
}

/// A whitespace character of JSON.
pub open spec fn json_space(c: char) -> bool {
    c == ' ' || c == '\t' || c == '\n' || c == '\r'
}

/// A text that neither starts nor ends with JSON whitespace.
pub open spec fn unpadded(t: Seq<char>) -> bool {
    t.len() > 0 && !json_space(t[0]) && !json_space(t.last())
}

/// Items separated by commas.
pub open spec fn comma_joined(items: Seq<Seq<char>>) -> Seq<char>
    decreases items.len(),
{
    if items.len() == 0 {
        Seq::empty()
    } else if items.len() == 1 {
        items[0]
    } else {
        comma_joined(items.drop_last()) + ","@ + items.last()
    }
}

/// Character-wise comparison of two strings.
pub fn same_text(a: &str, b: &str) -> (r: bool)
    ensures
        r == (a@ == b@),
{
    let n: usize = a.unicode_len();
    if n != b.unicode_len() {
        return false;
    }
    let mut i: usize = 0;
    while i < n
        invariant
            n == a@.len(),
            n == b@.len(),
            i <= n,
            forall|j: int| 0 <= j < i ==> a@[j] == b@[j],
        decreases n - i,
    {
        if a.get_char(i) != b.get_char(i) {
            return false;
        }
        i = i + 1;
    }
    assert(a@ =~= b@);
    true
}

/// The subject an agent subscribes to: the fixed prefix followed by its identifier.
pub open spec fn subject_of(agent_id: Seq<char>) -> Seq<char> {
    "dockerd-"@ + agent_id
}

/// Builds the per-agent command subject.
pub fn command_subject(agent_id: &str) -> (r: String)
    ensures
        r@ == subject_of(agent_id@),
{
    proof {
        reveal_strlit("dockerd-");
    }
    let prefix = String::from_str("dockerd-");
    prefix.concat(agent_id)
}

} // verus!
