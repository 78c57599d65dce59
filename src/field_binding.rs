//! The name under which generated code binds each field.
use crate::decimal::{decimal, lemma_decimal_injective, push_decimal};
use crate::model::{Field, Fields};
use vstd::prelude::*;

verus! {

/// How a field is reached: by its name or by its position.
#[derive(Debug)]
pub enum Member {
    Named(String),
    Unnamed(usize),
}

/// The value of a [`Member`].
pub enum MemberView {
    Named(Seq<char>),
    Unnamed(nat),
}

impl View for Member {
    type V = MemberView;

    open spec fn view(&self) -> MemberView {
        match self {
            Member::Named(s) => MemberView::Named(s@),
            Member::Unnamed(i) => MemberView::Unnamed(*i as nat),
        }
    }
}

/// The value of a [`FieldBinding`].
pub struct FieldBindingView {
    /// The local name that generated code binds the field to.
    pub name: Seq<char>,
    /// How the field is reached.
    pub member: MemberView,
}

/// One field as generated code refers to it: a local name and the field's
/// member (name or position).
#[derive(Debug)]
pub struct FieldBinding {
    ident: String,
    member: Member,
}

impl View for FieldBinding {
    type V = FieldBindingView;

    closed spec fn view(&self) -> FieldBindingView {
        FieldBindingView { name: self.ident@, member: self.member@ }
    }
}

/// `binding_` followed by the decimal position.
pub open spec fn positional_name(i: nat) -> Seq<char> {
    "binding_"@ + decimal(i)
}

/// The binding of the field `f` declared at position `i`: its own name if
/// it has one, `binding_<i>` otherwise.
pub open spec fn binding_of<P>(i: nat, f: Field<P>) -> FieldBindingView {
    match f.ident {
        Some(id) => FieldBindingView { name: id@, member: MemberView::Named(id@) },
        None => FieldBindingView { name: positional_name(i), member: MemberView::Unnamed(i) },
    }
}

/// The bindings of all fields, in declaration order.
pub open spec fn bindings_of<P>(fields: &Fields<P>) -> Seq<FieldBindingView> {
    Seq::new(fields.seq().len(), |i: int| binding_of(i as nat, fields.seq()[i]))
}

/// The values of a sequence of bindings.
pub open spec fn binding_views(v: Seq<FieldBinding>) -> Seq<FieldBindingView> {
    v.map_values(|b: FieldBinding| b@)
}

impl FieldBinding {
    /// The binding of a field at a given position: a named field keeps its
    /// name; a positional one is called `binding_<position>`.
    pub fn new<P>(pair: (usize, &Field<P>)) -> (r: FieldBinding)
        ensures
            r@ == binding_of(pair.0 as nat, *pair.1),
    {
        let (idx, field) = pair;
        match &field.ident {
            Some(ident) => FieldBinding { ident: ident.clone(), member: Member::Named(ident.clone()) },
            None => {
                let mut ident = String::from_str("binding_");
                push_decimal(&mut ident, idx);
                FieldBinding { ident, member: Member::Unnamed(idx) }
            },
        }
    }

    /// The local name used for this field in generated code.
    pub fn ident(&self) -> (r: &String)
        ensures
            r@ == self@.name,
    {
        &self.ident
    }

    /// How the field is reached.
    pub fn member(&self) -> (r: &Member)
        ensures
            r@ == self@.member,
    {
        &self.member
    }

    /// The bindings of all fields of a collection, in declaration order.
    pub fn from_fields<P>(fields: &Fields<P>) -> (r: Vec<FieldBinding>)
        ensures
            binding_views(r@) == bindings_of(fields),
    {
        let n = fields.len();
        let mut out: Vec<FieldBinding> = Vec::new();
        let mut i: usize = 0;
        while i < n
            invariant
                0 <= i <= n,
                n == fields.seq().len(),
                out@.len() == i,
                forall|k: int|
                    0 <= k < i ==> (#[trigger] out@[k])@ == binding_of(k as nat, fields.seq()[k]),
            decreases n - i,
        {
            out.push(FieldBinding::new((i, fields.get(i))));
            i = i + 1;
        }
        assert(binding_views(out@) =~= bindings_of(fields));
        out
    }
}

/// In a well-formed field collection the bindings follow the declaration
/// order one for one, their names are pairwise distinct, and the binding
/// of a positional field is named exactly `binding_<position>`.
pub proof fn lemma_binding_names<P>(fields: &Fields<P>)
    requires
        fields.well_formed(),
    ensures
        bindings_of(fields).len() == fields.seq().len(),
        forall|i: int|
            0 <= i < fields.seq().len() ==> (#[trigger] bindings_of(fields)[i]) == binding_of(
                i as nat,
                fields.seq()[i],
            ),
        forall|i: int|
            0 <= i < fields.seq().len() && fields.seq()[i].ident is None ==> (
            #[trigger] bindings_of(fields)[i]).name == positional_name(i as nat),
        forall|i: int, j: int|
            0 <= i < j < fields.seq().len() ==> (#[trigger] bindings_of(fields)[i]).name != (
            #[trigger] bindings_of(fields)[j]).name,
{
    let b = bindings_of(fields);
    assert forall|i: int, j: int| 0 <= i < j < fields.seq().len() implies (
    #[trigger] b[i]).name != (#[trigger] b[j]).name by {
        match fields {
            Fields::Named(v) => {
                assert(v@[i].ident.is_some());
                assert(v@[j].ident.is_some());
            },
            Fields::Unnamed(v) => {
                assert(v@[i].ident.is_none());
                assert(v@[j].ident.is_none());
                if positional_name(i as nat) == positional_name(j as nat) {
                    let pre = "binding_"@;
                    assert(positional_name(i as nat).subrange(pre.len() as int, positional_name(i as nat).len() as int) =~= decimal(i as nat));
                    assert(positional_name(j as nat).subrange(pre.len() as int, positional_name(j as nat).len() as int) =~= decimal(j as nat));
                    lemma_decimal_injective(i as nat, j as nat);
                }
            },
            Fields::Unit => {},
        }
    }
}

} // verus!
