use vstd::prelude::*;

verus! {

/// The parts joined in order, with `sep` between each two neighbours.
pub open spec fn seq_join(parts: Seq<Seq<char>>, sep: Seq<char>) -> Seq<char>
    decreases parts.len(),
{
    if parts.len() == 0 {
        Seq::empty()
    } else if parts.len() == 1 {
        parts[0]
    } else {
        seq_join(parts.drop_last(), sep) + sep + parts.last()
    }
}

/// The character sequences of a list of strings.
pub open spec fn string_views(list: Seq<String>) -> Seq<Seq<char>> {
    list.map_values(|s: String| s@)
}

/// Joins the strings of `parts` with `sep` between each two neighbours.
pub fn join_strings(parts: &Vec<String>, sep: &str) -> (res: String)
    ensures
        res@ == seq_join(string_views(parts@), sep@),
{
    let ghost views = string_views(parts@);
    let mut res = String::new();
    let n = parts.len();
    let mut i: usize = 0;
    while i < n
        invariant
            n == parts.len(),
            i <= n,
            views == string_views(parts@),
            res@ == seq_join(views.take(i as int), sep@),
        decreases n - i,
    {
        if i != 0 {
            res.append(sep);
        }
        res.append(parts[i].as_str());
        assert(views.take(i + 1).drop_last() =~= views.take(i as int));
        i = i + 1;
    }
    assert(views.take(n as int) =~= views);
    res
}

/// Whether `name` equals one of the strings of `list`.
pub fn contains_string(list: &Vec<String>, name: &String) -> (res: bool)
    ensures
        res == string_views(list@).contains(name@),
{
    let n = list.len();
    let mut i: usize = 0;
    while i < n
        invariant
            n == list.len(),
            i <= n,
            forall|j: int| 0 <= j < i ==> list@[j]@ != name@,
        decreases n - i,
    {
        if list[i] == *name {
            assert(string_views(list@)[i as int] == name@);
            return true;
        }
        i = i + 1;
    }
    assert forall|j: int| 0 <= j < string_views(list@).len() implies string_views(
        list@,
    )[j] != name@ by {}
    false
}

/// Joining nothing gives nothing, joining one part gives that part, and adding
/// a part to a non-empty list appends the separator and the part.
pub proof fn lemma_seq_join_steps(parts: Seq<Seq<char>>, x: Seq<char>, sep: Seq<char>)
    ensures
        seq_join(Seq::empty(), sep) == Seq::<char>::empty(),
        seq_join(seq![x], sep) == x,
        parts.len() > 0 ==> seq_join(parts.push(x), sep) == seq_join(parts, sep) + sep + x,
{
    assert(parts.push(x).drop_last() =~= parts);
}

/// The views of a list of strings are the strings' views, one for one.
pub proof fn lemma_string_views(list: Seq<String>)
    ensures
        string_views(list).len() == list.len(),
        forall|i: int| 0 <= i < list.len() ==> #[trigger] string_views(list)[i] == list[i]@,
{
}

} // verus!
