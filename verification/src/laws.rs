use vstd::prelude::*;
use crate::identity::Identity;

verus! {

/// Law: an identity's arity is exactly its number of parts — one for a
/// unary key, two for a binary key, three for a ternary key.
pub proof fn lemma_arity_is_part_count(i: Identity)
    ensures
        i is Unary <==> i.parts().len() == 1,
        i is Binary <==> i.parts().len() == 2,
        i is Ternary <==> i.parts().len() == 3,
{
}

/// Law: the rendered text of an identity is the concatenation of its
/// parts, in order, and an identity always has one, two or three parts.
pub proof fn lemma_render_is_flatten_of_parts(i: Identity)
    ensures
        1 <= i.parts().len() <= 3,
        i.spec_render() == i.parts().flatten(),
{
    reveal_with_fuel(Seq::<_>::flatten, 4);
    match i {
        Identity::Unary(a) => {
            assert(i.parts().drop_first() =~= Seq::<Seq<char>>::empty());
            assert(i.parts().flatten() =~= a@);
        },
        Identity::Binary(a, b) => {
            assert(i.parts().drop_first() =~= seq![b@]);
            assert(i.parts().drop_first().drop_first() =~= Seq::<Seq<char>>::empty());
            assert(i.parts().flatten() =~= a@ + b@);
        },
        Identity::Ternary(a, b, c) => {
            assert(i.parts().drop_first() =~= seq![b@, c@]);
            assert(i.parts().drop_first().drop_first() =~= seq![c@]);
            assert(i.parts().drop_first().drop_first().drop_first() =~= Seq::<
                Seq<char>,
            >::empty());
            assert(i.parts().flatten() =~= a@ + (b@ + c@));
            assert(a@ + (b@ + c@) =~= a@ + b@ + c@);
        },
    }
}

/// Law: an identity whose single part is the text `a` renders as
/// exactly `a` — in particular, an identity converted from a raw name
/// renders as that name.
pub proof fn lemma_unary_render(i: Identity, a: Seq<char>)
    requires
        i.parts() == seq![a],
    ensures
        i.spec_render() == a,
{
    lemma_arity_is_part_count(i);
    match i {
        Identity::Unary(x) => {
            assert(x@ == i.parts()[0]);
        },
        _ => {
            assert(false);
        },
    }
}

/// Law: converting a name held by value and converting a borrowed view
/// of the same name yield identities that render identically, and that
/// text is the name itself.
pub proof fn lemma_text_conversions_agree(i: Identity, j: Identity, s: Seq<char>)
    requires
        i.parts() == seq![s],
        j.parts() == seq![s],
    ensures
        i.spec_render() == j.spec_render(),
        i.spec_render() == s,
{
    lemma_unary_render(i, s);
    lemma_unary_render(j, s);
}

/// Law: an identity whose parts are the texts `a, b` renders as `a`
/// followed by `b`, in that order.
pub proof fn lemma_binary_render(i: Identity, a: Seq<char>, b: Seq<char>)
    requires
        i.parts() == seq![a, b],
    ensures
        i.spec_render() == a + b,
{
    lemma_arity_is_part_count(i);
    assert(i.parts()[0] == a && i.parts()[1] == b);
}

/// Law: two-part conversion is order-sensitive — an identity built from
/// the pair `(a, b)` and one built from `(b, a)` have the same parts
/// only when `a == b`.
pub proof fn lemma_binary_order_sensitive(i: Identity, j: Identity, a: Seq<char>, b: Seq<char>)
    requires
        i.parts() == seq![a, b],
        j.parts() == seq![b, a],
        i.parts() == j.parts(),
    ensures
        a == b,
{
    assert(seq![a, b][0] == seq![b, a][0]);
}

/// Law: an identity whose parts are the texts `a, b, c` renders as `a`
/// followed by `b` followed by `c`, in that order.
pub proof fn lemma_ternary_render(i: Identity, a: Seq<char>, b: Seq<char>, c: Seq<char>)
    requires
        i.parts() == seq![a, b, c],
    ensures
        i.spec_render() == a + b + c,
{
    lemma_arity_is_part_count(i);
    assert(i.parts()[0] == a && i.parts()[1] == b && i.parts()[2] == c);
}

} // verus!
