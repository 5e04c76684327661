use vstd::prelude::*;

verus! {

/// The sequence moved one place to the left: the first element goes to the end.
/// An empty sequence stays as it is.
pub open spec fn rotl<A>(s: Seq<A>) -> Seq<A> {
    if s.len() == 0 {
        s
    } else {
        s.drop_first().push(s[0])
    }
}

/// The sequence moved one place to the right: the last element comes first.
/// An empty sequence stays as it is.
pub open spec fn rotr<A>(s: Seq<A>) -> Seq<A> {
    if s.len() == 0 {
        s
    } else {
        seq![s.last()] + s.drop_last()
    }
}

/// Moving right undoes moving left.
pub proof fn lemma_rotr_rotl<A>(s: Seq<A>)
    ensures
        rotr(rotl(s)) == s,
        rotl(rotr(s)) == s,
        rotl(s).len() == s.len(),
        rotr(s).len() == s.len(),
{
    if s.len() > 0 {
        assert(rotr(rotl(s)) =~= s);
        assert(rotl(rotr(s)) =~= s);
    }
}

/// Moves the first element of `v` to its end.
pub fn rotate_left_one<T>(v: &mut Vec<T>)
    ensures
        final(v)@ == rotl(old(v)@),
{
    if v.len() > 0 {
        let first = v.remove(0);
        v.push(first);
        proof {
            assert(final(v)@ =~= rotl(old(v)@));
        }
    }
}

/// Moves the last element of `v` to its front.
pub fn rotate_right_one<T>(v: &mut Vec<T>)
    ensures
        final(v)@ == rotr(old(v)@),
{
    if let Some(last) = v.pop() {
        v.insert(0, last);
        proof {
            assert(final(v)@ =~= rotr(old(v)@));
        }
    }
}

} // verus!
