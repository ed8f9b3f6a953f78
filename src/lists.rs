//! Lists of field texts that the emitters join into source text.

use vstd::prelude::*;

use crate::text::{append_decimal, decimal, views};
use crate::ty::{idx_char, idx_char_spec, PreparedField};

verus! {

/// `items` separated by `sep`.
pub open spec fn join_spec(items: Seq<Seq<char>>, sep: Seq<char>) -> Seq<char>
    decreases items.len(),
{
    if items.len() == 0 {
        Seq::empty()
    } else if items.len() == 1 {
        items[0]
    } else {
        join_spec(items.drop_last(), sep) + sep + items.last()
    }
}

/// `items` one after the other.
pub open spec fn concat_spec(items: Seq<Seq<char>>) -> Seq<char>
    decreases items.len(),
{
    if items.len() == 0 {
        Seq::empty()
    } else {
        concat_spec(items.drop_last()) + items.last()
    }
}

/// Joins `items` with `sep` between each two.
pub fn join(items: &Vec<String>, sep: &str) -> (r: String)
    ensures
        r@ == join_spec(views(items@), sep@),
{
    let mut s = String::new();
    let mut i: usize = 0;
    while i < items.len()
        invariant
            i <= items@.len(),
            s@ == join_spec(views(items@).take(i as int), sep@),
        decreases items@.len() - i,
    {
        assert(views(items@).take(i as int + 1).drop_last() =~= views(items@).take(i as int));
        if i > 0 {
            s.append(sep);
        }
        s.append(items[i].as_str());
        assert(views(items@).take(i as int + 1).last() == items@[i as int]@);
        if i == 0 {
            assert(s@ =~= views(items@).take(1)[0]);
        }
        i = i + 1;
    }
    assert(views(items@).take(i as int) =~= views(items@));
    s
}

/// Puts `items` one after the other.
pub fn concat(items: &Vec<String>) -> (r: String)
    ensures
        r@ == concat_spec(views(items@)),
{
    let mut s = String::new();
    let mut i: usize = 0;
    assert(s@ =~= concat_spec(views(items@).take(0)));
    while i < items.len()
        invariant
            i <= items@.len(),
            s@ == concat_spec(views(items@).take(i as int)),
        decreases items@.len() - i,
    {
        assert(views(items@).take(i as int + 1).drop_last() =~= views(items@).take(i as int));
        s.append(items[i].as_str());
        i = i + 1;
    }
    assert(views(items@).take(i as int) =~= views(items@));
    s
}

/// The fields at the places `order` names.
pub open spec fn pick(fields: Seq<PreparedField>, order: Seq<usize>) -> Seq<PreparedField> {
    Seq::new(order.len(), |k: int| fields[order[k] as int])
}

pub open spec fn order_in(order: Seq<usize>, n: int) -> bool {
    forall|k: int| 0 <= k < order.len() ==> order[k] < n
}

/// `0, 1, ..., n - 1`.
pub open spec fn iota(n: nat) -> Seq<usize> {
    Seq::new(n, |i: int| i as usize)
}

pub fn iota_exec(n: usize) -> (r: Vec<usize>)
    ensures
        r@ == iota(n as nat),
{
    let mut r: Vec<usize> = Vec::new();
    let mut i: usize = 0;
    while i < n
        invariant
            i <= n,
            r@ == iota(i as nat),
        decreases n - i,
    {
        r.push(i);
        i = i + 1;
        assert(r@ =~= iota(i as nat));
    }
    r
}

pub proof fn lemma_pick_iota(fields: Seq<PreparedField>)
    requires
        fields.len() <= usize::MAX,
    ensures
        pick(fields, iota(fields.len())) == fields,
        order_in(iota(fields.len()), fields.len() as int),
{
    assert(pick(fields, iota(fields.len())) =~= fields);
}

pub open spec fn names_spec(fields: Seq<PreparedField>) -> Seq<Seq<char>> {
    fields.map_values(|f: PreparedField| f.name@)
}

pub open spec fn own_tys_spec(fields: Seq<PreparedField>) -> Seq<Seq<char>> {
    fields.map_values(|f: PreparedField| f.own_struct_spec())
}

pub open spec fn brw_tys_spec(fields: Seq<PreparedField>, is_async: bool) -> Seq<Seq<char>> {
    fields.map_values(|f: PreparedField| f.brw_ty_spec(true, is_async))
}

pub open spec fn param_tys_spec(fields: Seq<PreparedField>) -> Seq<Seq<char>> {
    fields.map_values(|f: PreparedField| f.param_ty_spec())
}

pub open spec fn assigns_spec(fields: Seq<PreparedField>) -> Seq<Seq<char>> {
    fields.map_values(|f: PreparedField| f.owning_assign_spec())
}

/// `pub <name>: <ty>` for each pair.
pub open spec fn decls_spec(names: Seq<Seq<char>>, tys: Seq<Seq<char>>) -> Seq<Seq<char>> {
    Seq::new(names.len(), |i: int| "pub "@ + names[i] + ": "@ + tys[i])
}

/// `<prefix><name><suffix>` for each name.
pub open spec fn wrapped_spec(prefix: Seq<char>, names: Seq<Seq<char>>, suffix: Seq<char>) -> Seq<Seq<char>> {
    names.map_values(|n: Seq<char>| prefix + n + suffix)
}

/// `T<k>: <bound>` for each bound, `k` counting from 1.
pub open spec fn generics_spec(bounds: Seq<Seq<char>>) -> Seq<Seq<char>> {
    Seq::new(bounds.len(), |i: int| idx_char_spec((i + 1) as nat) + ": "@ + bounds[i])
}

/// `T1, T2, ...`, one for each bound.
pub open spec fn generic_names_spec(bounds: Seq<Seq<char>>) -> Seq<Seq<char>> {
    Seq::new(bounds.len(), |i: int| idx_char_spec((i + 1) as nat))
}

/// Ergonomic types of `fields`, in order, and the bounds they record.
pub open spec fn ergo_fold(fields: Seq<PreparedField>, is_async: bool) -> (Seq<Seq<char>>, Seq<Seq<char>>)
    decreases fields.len(),
{
    if fields.len() == 0 {
        (Seq::empty(), Seq::empty())
    } else {
        let (tys, bs) = ergo_fold(fields.drop_last(), is_async);
        (tys.push(fields.last().ergo_ty_spec(is_async, bs)), fields.last().bounds_after(is_async, bs))
    }
}

pub proof fn lemma_ergo_fold_len(fields: Seq<PreparedField>, is_async: bool)
    ensures
        ergo_fold(fields, is_async).0.len() == fields.len(),
        ergo_fold(fields, is_async).1.len() <= fields.len(),
    decreases fields.len(),
{
    if fields.len() > 0 {
        lemma_ergo_fold_len(fields.drop_last(), is_async);
    }
}

/// Names of `fields`.
pub fn names(fields: &Vec<PreparedField>) -> (r: Vec<String>)
    ensures
        views(r@) == names_spec(fields@),
        r@.len() == fields@.len(),
{
    let mut r: Vec<String> = Vec::new();
    let mut i: usize = 0;
    while i < fields.len()
        invariant
            i <= fields@.len(),
            r@.len() == i,
            forall|j: int| 0 <= j < i ==> r@[j]@ == fields@[j].name@,
        decreases fields@.len() - i,
    {
        let c = fields[i].name.clone();
        r.push(c);
        i = i + 1;
    }
    assert(views(r@) =~= names_spec(fields@));
    r
}

/// Names of the fields at the places `order` names.
pub fn names_in(fields: &Vec<PreparedField>, order: &Vec<usize>) -> (r: Vec<String>)
    requires
        order_in(order@, fields@.len() as int),
    ensures
        views(r@) == names_spec(pick(fields@, order@)),
        r@.len() == order@.len(),
{
    let mut r: Vec<String> = Vec::new();
    let mut i: usize = 0;
    while i < order.len()
        invariant
            i <= order@.len(),
            order_in(order@, fields@.len() as int),
            r@.len() == i,
            forall|j: int| 0 <= j < i ==> r@[j]@ == fields@[order@[j] as int].name@,
        decreases order@.len() - i,
    {
        let c = fields[order[i]].name.clone();
        r.push(c);
        i = i + 1;
    }
    assert(views(r@) =~= names_spec(pick(fields@, order@)));
    r
}

/// Owned types of `fields`.
pub fn own_tys(fields: &Vec<PreparedField>) -> (r: Vec<String>)
    ensures
        views(r@) == own_tys_spec(fields@),
        r@.len() == fields@.len(),
{
    let mut r: Vec<String> = Vec::new();
    let mut i: usize = 0;
    while i < fields.len()
        invariant
            i <= fields@.len(),
            r@.len() == i,
            forall|j: int| 0 <= j < i ==> r@[j]@ == fields@[j].own_struct_spec(),
        decreases fields@.len() - i,
    {
        let c = fields[i].own_struct();
        r.push(c);
        i = i + 1;
    }
    assert(views(r@) =~= own_tys_spec(fields@));
    r
}

/// Borrowed types of `fields`, with the named lifetime.
pub fn brw_tys(fields: &Vec<PreparedField>, is_async: bool) -> (r: Vec<String>)
    ensures
        views(r@) == brw_tys_spec(fields@, is_async),
        r@.len() == fields@.len(),
{
    let mut r: Vec<String> = Vec::new();
    let mut i: usize = 0;
    while i < fields.len()
        invariant
            i <= fields@.len(),
            r@.len() == i,
            forall|j: int| 0 <= j < i ==> r@[j]@ == fields@[j].brw_ty_spec(true, is_async),
        decreases fields@.len() - i,
    {
        let c = fields[i].brw_ty(true, is_async);
        r.push(c);
        i = i + 1;
    }
    assert(views(r@) =~= brw_tys_spec(fields@, is_async));
    r
}

/// Parameter-input types of `fields`.
pub fn param_tys(fields: &Vec<PreparedField>, is_async: bool) -> (r: Vec<String>)
    ensures
        views(r@) == param_tys_spec(fields@),
        r@.len() == fields@.len(),
{
    let mut r: Vec<String> = Vec::new();
    let mut i: usize = 0;
    while i < fields.len()
        invariant
            i <= fields@.len(),
            r@.len() == i,
            forall|j: int| 0 <= j < i ==> r@[j]@ == fields@[j].param_ty_spec(),
        decreases fields@.len() - i,
    {
        let c = fields[i].param_ty(is_async);
        r.push(c);
        i = i + 1;
    }
    assert(views(r@) =~= param_tys_spec(fields@));
    r
}

/// Borrowed-to-owned initialisers of `fields`.
pub fn assigns(fields: &Vec<PreparedField>) -> (r: Vec<String>)
    ensures
        views(r@) == assigns_spec(fields@),
        r@.len() == fields@.len(),
{
    let mut r: Vec<String> = Vec::new();
    let mut i: usize = 0;
    while i < fields.len()
        invariant
            i <= fields@.len(),
            r@.len() == i,
            forall|j: int| 0 <= j < i ==> r@[j]@ == fields@[j].owning_assign_spec(),
        decreases fields@.len() - i,
    {
        let c = fields[i].owning_assign();
        r.push(c);
        i = i + 1;
    }
    assert(views(r@) =~= assigns_spec(fields@));
    r
}

/// `pub <name>: <ty>` for each pair.
pub fn decls(names: &Vec<String>, tys: &Vec<String>) -> (r: Vec<String>)
    requires
        names@.len() == tys@.len(),
    ensures
        views(r@) == decls_spec(views(names@), views(tys@)),
        r@.len() == names@.len(),
{
    let mut r: Vec<String> = Vec::new();
    let mut i: usize = 0;
    while i < names.len()
        invariant
            i <= names@.len(),
            names@.len() == tys@.len(),
            r@.len() == i,
            forall|j: int| 0 <= j < i ==> r@[j]@ == "pub "@ + names@[j]@ + ": "@ + tys@[j]@,
        decreases names@.len() - i,
    {
        let mut c = String::from_str("pub ");
        c.append(names[i].as_str());
        c.append(": ");
        c.append(tys[i].as_str());
        r.push(c);
        i = i + 1;
    }
    assert(views(r@) =~= decls_spec(views(names@), views(tys@)));
    r
}

/// `<prefix><name><suffix>` for each name.
pub fn wrapped(prefix: &str, names: &Vec<String>, suffix: &str) -> (r: Vec<String>)
    ensures
        views(r@) == wrapped_spec(prefix@, views(names@), suffix@),
        r@.len() == names@.len(),
{
    let mut r: Vec<String> = Vec::new();
    let mut i: usize = 0;
    while i < names.len()
        invariant
            i <= names@.len(),
            r@.len() == i,
            forall|j: int| 0 <= j < i ==> r@[j]@ == prefix@ + names@[j]@ + suffix@,
        decreases names@.len() - i,
    {
        let mut c = String::from_str(prefix);
        c.append(names[i].as_str());
        c.append(suffix);
        r.push(c);
        i = i + 1;
    }
    assert(views(r@) =~= wrapped_spec(prefix@, views(names@), suffix@));
    r
}

/// `T<k>: <bound>` for each bound.
pub fn generics(bounds: &Vec<String>) -> (r: Vec<String>)
    requires
        bounds@.len() < usize::MAX,
    ensures
        views(r@) == generics_spec(views(bounds@)),
        r@.len() == bounds@.len(),
{
    let mut r: Vec<String> = Vec::new();
    let mut i: usize = 0;
    while i < bounds.len()
        invariant
            i <= bounds@.len(),
            bounds@.len() < usize::MAX,
            r@.len() == i,
            forall|j: int| 0 <= j < i ==> r@[j]@ == idx_char_spec((j + 1) as nat) + ": "@ + bounds@[j]@,
        decreases bounds@.len() - i,
    {
        let mut c = idx_char(i + 1);
        c.append(": ");
        c.append(bounds[i].as_str());
        r.push(c);
        i = i + 1;
    }
    assert(views(r@) =~= generics_spec(views(bounds@)));
    r
}

/// `T1, T2, ...`, one for each bound.
pub fn generic_names(bounds: &Vec<String>) -> (r: Vec<String>)
    requires
        bounds@.len() < usize::MAX,
    ensures
        views(r@) == generic_names_spec(views(bounds@)),
        r@.len() == bounds@.len(),
{
    let mut r: Vec<String> = Vec::new();
    let mut i: usize = 0;
    while i < bounds.len()
        invariant
            i <= bounds@.len(),
            bounds@.len() < usize::MAX,
            r@.len() == i,
            forall|j: int| 0 <= j < i ==> r@[j]@ == idx_char_spec((j + 1) as nat),
        decreases bounds@.len() - i,
    {
        let c = idx_char(i + 1);
        r.push(c);
        i = i + 1;
    }
    assert(views(r@) =~= generic_names_spec(views(bounds@)));
    r
}

/// Ergonomic types of the fields at the places `order` names, and the
/// deduplicated bounds they require, in order of first appearance.
pub fn ergo_tys(fields: &Vec<PreparedField>, order: &Vec<usize>, is_async: bool) -> (r: (Vec<String>, Vec<String>))
    requires
        order_in(order@, fields@.len() as int),
    ensures
        (views(r.0@), views(r.1@)) == ergo_fold(pick(fields@, order@), is_async),
        r.0@.len() == order@.len(),
        r.1@.len() <= order@.len(),
{
    let mut tys: Vec<String> = Vec::new();
    let mut traits: Vec<String> = Vec::new();
    let mut i: usize = 0;
    assert(views(traits@) =~= Seq::<Seq<char>>::empty());
    assert(views(tys@) =~= Seq::<Seq<char>>::empty());
    while i < order.len()
        invariant
            i <= order@.len(),
            order_in(order@, fields@.len() as int),
            (views(tys@), views(traits@)) == ergo_fold(pick(fields@, order@).take(i as int), is_async),
            views(traits@).no_duplicates(),
            traits@.len() <= i,
        decreases order@.len() - i,
    {
        let ghost p = pick(fields@, order@);
        assert(p.take(i as int + 1).drop_last() =~= p.take(i as int));
        let ghost before = traits@;
        let t = fields[order[i]].param_ergo_ty(is_async, &mut traits);
        assert(views(traits@).len() == traits@.len() && views(before).len() == before.len());
        assert(views(traits@).len() <= views(before).len() + 1);
        tys.push(t);
        i = i + 1;
        assert(views(tys@) =~= ergo_fold(p.take(i as int), is_async).0);
    }
    assert(pick(fields@, order@).take(i as int) =~= pick(fields@, order@));
    proof { lemma_ergo_fold_len(pick(fields@, order@), is_async); }
    assert(views(tys@).len() == tys@.len());
    (tys, traits)
}

/// `first` followed by `rest`.
pub fn prepend(first: String, rest: &Vec<String>) -> (r: Vec<String>)
    ensures
        views(r@) == seq![first@] + views(rest@),
{
    let mut r: Vec<String> = Vec::new();
    let ghost f = first@;
    r.push(first);
    let mut i: usize = 0;
    while i < rest.len()
        invariant
            i <= rest@.len(),
            r@.len() == i + 1,
            r@[0]@ == f,
            forall|j: int| 0 <= j < i ==> r@[j + 1]@ == rest@[j]@,
        decreases rest@.len() - i,
    {
        r.push(rest[i].clone());
        i = i + 1;
    }
    assert(views(r@) =~= seq![f] + views(rest@));
    r
}

/// `<a><xs[i]><b><ys[i]><c>` for each place.
pub open spec fn weave_spec(a: Seq<char>, xs: Seq<Seq<char>>, b: Seq<char>, ys: Seq<Seq<char>>, c: Seq<char>) -> Seq<Seq<char>> {
    Seq::new(xs.len(), |i: int| a + xs[i] + b + ys[i] + c)
}

/// `<a><xs[i]><b><ys[i]><c>` for each place.
pub fn weave(a: &str, xs: &Vec<String>, b: &str, ys: &Vec<String>, c: &str) -> (r: Vec<String>)
    requires
        xs@.len() == ys@.len(),
    ensures
        views(r@) == weave_spec(a@, views(xs@), b@, views(ys@), c@),
        r@.len() == xs@.len(),
{
    let mut r: Vec<String> = Vec::new();
    let mut i: usize = 0;
    while i < xs.len()
        invariant
            i <= xs@.len(),
            xs@.len() == ys@.len(),
            r@.len() == i,
            forall|j: int| 0 <= j < i ==> r@[j]@ == a@ + xs@[j]@ + b@ + ys@[j]@ + c@,
        decreases xs@.len() - i,
    {
        let mut t = String::from_str(a);
        t.append(xs[i].as_str());
        t.append(b);
        t.append(ys[i].as_str());
        t.append(c);
        r.push(t);
        i = i + 1;
    }
    assert(views(r@) =~= weave_spec(a@, views(xs@), b@, views(ys@), c@));
    r
}

/// Decimal notation of each number.
pub open spec fn decimals_spec(ns: Seq<usize>) -> Seq<Seq<char>> {
    ns.map_values(|n: usize| decimal(n as nat))
}

/// Decimal notation of each number.
pub fn decimals(ns: &Vec<usize>) -> (r: Vec<String>)
    ensures
        views(r@) == decimals_spec(ns@),
        r@.len() == ns@.len(),
{
    let mut r: Vec<String> = Vec::new();
    let mut i: usize = 0;
    while i < ns.len()
        invariant
            i <= ns@.len(),
            r@.len() == i,
            forall|j: int| 0 <= j < i ==> r@[j]@ == decimal(ns@[j] as nat),
        decreases ns@.len() - i,
    {
        let mut t = String::new();
        append_decimal(&mut t, ns[i]);
        assert(t@ =~= decimal(ns@[i as int] as nat));
        r.push(t);
        i = i + 1;
    }
    assert(views(r@) =~= decimals_spec(ns@));
    r
}

/// The items at the places `order` names.
pub open spec fn select_spec(items: Seq<Seq<char>>, order: Seq<usize>) -> Seq<Seq<char>> {
    Seq::new(order.len(), |k: int| items[order[k] as int])
}

/// The items at the places `order` names.
pub fn select(items: &Vec<String>, order: &Vec<usize>) -> (r: Vec<String>)
    requires
        order_in(order@, items@.len() as int),
    ensures
        views(r@) == select_spec(views(items@), order@),
        r@.len() == order@.len(),
{
    let mut r: Vec<String> = Vec::new();
    let mut i: usize = 0;
    while i < order.len()
        invariant
            i <= order@.len(),
            order_in(order@, items@.len() as int),
            r@.len() == i,
            forall|j: int| 0 <= j < i ==> r@[j]@ == items@[order@[j] as int]@,
        decreases order@.len() - i,
    {
        r.push(items[order[i]].clone());
        i = i + 1;
    }
    assert(views(r@) =~= select_spec(views(items@), order@));
    r
}

} // verus!
