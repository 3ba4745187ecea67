use vstd::prelude::*;

verus! {

/// Whether some entry of `v` has the text `x`.
pub open spec fn holds_text(v: Seq<String>, x: Seq<char>) -> bool {
    exists|i: int| 0 <= i < v.len() && (#[trigger] v[i])@ == x
}

/// The index of the first entry of `v` with the text `x`, if any.
pub open spec fn first_index(v: Seq<String>, x: Seq<char>) -> Option<int>
    decreases v.len(),
{
    if v.len() == 0 {
        None
    } else if v.last()@ == x && first_index(v.drop_last(), x) is None {
        Some(v.len() - 1)
    } else {
        first_index(v.drop_last(), x)
    }
}

/// `v` without the entries whose text is `x`.
pub open spec fn without_text(v: Seq<String>, x: Seq<char>) -> Seq<String> {
    v.filter(|s: String| s@ != x)
}

/// What `first_index` finds is the earliest match.
pub proof fn lemma_first_index(v: Seq<String>, x: Seq<char>)
    ensures
        match first_index(v, x) {
            Some(i) => 0 <= i < v.len() && v[i]@ == x && forall|j: int|
                0 <= j < i ==> (#[trigger] v[j])@ != x,
            None => !holds_text(v, x),
        },
    decreases v.len(),
{
    if v.len() > 0 {
        lemma_first_index(v.drop_last(), x);
        if first_index(v.drop_last(), x) is None {
            assert forall|j: int| 0 <= j < v.len() - 1 implies (#[trigger] v[j])@ != x by {
                assert(v.drop_last()[j] == v[j]);
            }
            if v.last()@ != x {
                assert forall|j: int| 0 <= j < v.len() implies (#[trigger] v[j])@ != x by {
                    if j < v.len() - 1 {
                        assert(v.drop_last()[j] == v[j]);
                    }
                }
            }
        } else {
            let i = first_index(v.drop_last(), x).unwrap();
            assert(v.drop_last()[i] == v[i]);
            assert forall|j: int| 0 <= j < i implies (#[trigger] v[j])@ != x by {
                assert(v.drop_last()[j] == v[j]);
            }
        }
    }
}

/// The position of the first entry of `v` equal to `x`.
pub fn find_text(v: &Vec<String>, x: &String) -> (r: Option<usize>)
    ensures
        r matches Some(i) ==> first_index(v@, x@) == Some(i as int),
        r is None ==> first_index(v@, x@) is None,
        r is None <==> !holds_text(v@, x@),
        r matches Some(i) ==> i < v.len() && v@[i as int]@ == x@,
{
    let mut i: usize = 0;
    while i < v.len()
        invariant
            i <= v.len(),
            forall|j: int| 0 <= j < i ==> (#[trigger] v@[j])@ != x@,
        decreases v.len() - i,
    {
        if v[i] == *x {
            proof {
                lemma_first_index(v@, x@);
                assert(holds_text(v@, x@));
                let f = first_index(v@, x@).unwrap();
                if f < i as int {
                    assert(v@[f]@ != x@);
                }
                if f > i as int {
                    assert(v@[i as int]@ != x@);
                }
            }
            return Some(i);
        }
        i = i + 1;
    }
    proof {
        lemma_first_index(v@, x@);
    }
    None
}

/// Whether `v` holds an entry equal to `x`.
pub fn contains_text(v: &Vec<String>, x: &String) -> (r: bool)
    ensures
        r == holds_text(v@, x@),
{
    find_text(v, x).is_some()
}

/// Removes every entry equal to `x` from `v`, keeping the order of the rest.
pub fn remove_all_text(v: &mut Vec<String>, x: &String)
    ensures
        final(v)@ == without_text(old(v)@, x@),
{
    let mut kept: Vec<String> = Vec::new();
    let mut i: usize = 0;
    while i < v.len()
        invariant
            i <= v.len(),
            kept@ == without_text(v@.take(i as int), x@),
        decreases v.len() - i,
    {
        proof {
            reveal(Seq::filter);
            assert(v@.take(i as int + 1).drop_last() == v@.take(i as int));
            assert(v@.take(i as int + 1).last() == v@[i as int]);
        }
        if v[i] != *x {
            kept.push(v[i].clone());
        }
        i = i + 1;
    }
    assert(v@.take(v.len() as int) == v@);
    *v = kept;
}

/// The entries of `v` whose text is (`keep`) or is not (`!keep`) held by `list`.
pub open spec fn filter_listed(v: Seq<String>, list: Seq<String>, keep: bool) -> Seq<String> {
    v.filter(|s: String| holds_text(list, s@) == keep)
}

/// Keeps the entries of `v` whose text is (`keep`) or is not (`!keep`) in
/// `list`, in order.
pub fn retain_listed(v: &mut Vec<String>, list: &Vec<String>, keep: bool)
    ensures
        final(v)@ == filter_listed(old(v)@, list@, keep),
{
    let mut kept: Vec<String> = Vec::new();
    let mut i: usize = 0;
    while i < v.len()
        invariant
            i <= v.len(),
            kept@ == filter_listed(v@.take(i as int), list@, keep),
        decreases v.len() - i,
    {
        proof {
            reveal(Seq::filter);
            assert(v@.take(i as int + 1).drop_last() == v@.take(i as int));
            assert(v@.take(i as int + 1).last() == v@[i as int]);
        }
        if contains_text(list, &v[i]) == keep {
            kept.push(v[i].clone());
        }
        i = i + 1;
    }
    assert(v@.take(v.len() as int) == v@);
    *v = kept;
}

/// Whether every entry of `items` has its text in `pool`.
pub fn all_held(items: &Vec<String>, pool: &Vec<String>) -> (r: bool)
    ensures
        r == forall|k: int| 0 <= k < items@.len() ==> holds_text(pool@, (#[trigger] items@[k])@),
{
    let mut k: usize = 0;
    while k < items.len()
        invariant
            k <= items.len(),
            forall|j: int| 0 <= j < k ==> holds_text(pool@, (#[trigger] items@[j])@),
        decreases items.len() - k,
    {
        if !contains_text(pool, &items[k]) {
            return false;
        }
        k = k + 1;
    }
    true
}

/// Builds `prefix` followed by `n` in decimal.
pub fn numbered(prefix: &str, n: usize) -> (r: String)
    ensures
        r@ == prefix@ + decimal(n as nat),
{
    let mut s = text(prefix);
    push_decimal(&mut s, n);
    s
}

/// Decimal digits of `n`, most significant first.
pub open spec fn decimal(n: nat) -> Seq<char>
    decreases n,
{
    if n < 10 {
        seq![digit_char(n)]
    } else {
        decimal(n / 10) + seq![digit_char(n % 10)]
    }
}

pub open spec fn digit_char(d: nat) -> char {
    if d == 0 {
        '0'
    } else if d == 1 {
        '1'
    } else if d == 2 {
        '2'
    } else if d == 3 {
        '3'
    } else if d == 4 {
        '4'
    } else if d == 5 {
        '5'
    } else if d == 6 {
        '6'
    } else if d == 7 {
        '7'
    } else if d == 8 {
        '8'
    } else {
        '9'
    }
}

fn digit_str(d: usize) -> (r: &'static str)
    requires
        d < 10,
    ensures
        r@ == seq![digit_char(d as nat)],
{
    proof {
        reveal_strlit("0");
        reveal_strlit("1");
        reveal_strlit("2");
        reveal_strlit("3");
        reveal_strlit("4");
        reveal_strlit("5");
        reveal_strlit("6");
        reveal_strlit("7");
        reveal_strlit("8");
        reveal_strlit("9");
    }
    if d == 0 {
        "0"
    } else if d == 1 {
        "1"
    } else if d == 2 {
        "2"
    } else if d == 3 {
        "3"
    } else if d == 4 {
        "4"
    } else if d == 5 {
        "5"
    } else if d == 6 {
        "6"
    } else if d == 7 {
        "7"
    } else if d == 8 {
        "8"
    } else {
        "9"
    }
}

/// Appends the decimal digits of `n` to `s`.
pub fn push_decimal(s: &mut String, n: usize)
    ensures
        final(s)@ == old(s)@ + decimal(n as nat),
    decreases n,
{
    if n >= 10 {
        push_decimal(s, n / 10);
    }
    let d = digit_str(n % 10);
    s.append(d);
    proof {
        if n >= 10 {
            assert(decimal(n as nat) == decimal((n / 10) as nat) + seq![digit_char((n % 10) as nat)]);
        }
    }
}

/// The identifier of the player in 1-based seat `n`: `"p"` then `n` in decimal.
pub open spec fn seat_id(n: nat) -> Seq<char> {
    seq!['p'] + decimal(n)
}

/// Builds the identifier of the player in 1-based seat `n`.
pub fn make_seat_id(n: usize) -> (r: String)
    ensures
        r@ == seat_id(n as nat),
{
    proof {
        reveal_strlit("p");
    }
    let mut s = String::from_str("p");
    push_decimal(&mut s, n);
    s
}

/// A `String` with the text of a literal.
pub fn text(s: &str) -> (r: String)
    ensures
        r@ == s@,
{
    s.to_owned()
}

} // verus!
