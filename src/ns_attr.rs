//! Annotations that belong to one derivation, recognised by a namespace
//! name among the other annotations of a type, a variant or a field.
use crate::model::{Attribute, Error};
use vstd::prelude::*;

verus! {

/// The syntactic level an annotation is attached to.
#[derive(Clone, Copy, Debug, PartialEq, Eq)]
pub enum AttrLevel {
    Type,
    Variant,
    Field,
}

impl AttrLevel {
    /// The name of the level.
    pub open spec fn spec_name(self) -> Seq<char> {
        match self {
            AttrLevel::Type => "Type"@,
            AttrLevel::Variant => "Variant"@,
            AttrLevel::Field => "Field"@,
        }
    }

    /// The name of the level.
    pub fn name(&self) -> (r: &'static str)
        ensures
            r@ == self.spec_name(),
    {
        match self {
            AttrLevel::Type => "Type",
            AttrLevel::Variant => "Variant",
            AttrLevel::Field => "Field",
        }
    }
}

/// The annotation `a` is `#[ns ...]`.
pub open spec fn in_ns<P>(a: Attribute<P>, ns: Seq<char>) -> bool {
    a.path_ident matches Some(id) && id@ == ns
}

/// No annotation of `attrs` is in the namespace `ns`.
pub open spec fn none_in_ns<P>(attrs: Seq<Attribute<P>>, ns: Seq<char>) -> bool {
    forall|i: int| 0 <= i < attrs.len() ==> !in_ns(#[trigger] attrs[i], ns)
}

/// `Attribute #[<ns>] Is Already Configured`
pub open spec fn already_msg(ns: Seq<char>) -> Seq<char> {
    "Attribute #["@ + ns + "] Is Already Configured"@
}

/// `Attribute #[<ns>] Is Required`
pub open spec fn required_msg(ns: Seq<char>) -> Seq<char> {
    "Attribute #["@ + ns + "] Is Required"@
}

/// `Attribute #[<ns>] Is Not Allowed At The <level> Level`
pub open spec fn not_allowed_msg(ns: Seq<char>, level: AttrLevel) -> Seq<char> {
    "Attribute #["@ + ns + "] Is Not Allowed At The "@ + level.spec_name() + " Level"@
}

/// `attrs[k]` is the one annotation of `ns` in `attrs`.
pub open spec fn only_in_ns<P>(attrs: Seq<Attribute<P>>, ns: Seq<char>, k: int) -> bool {
    &&& 0 <= k < attrs.len()
    &&& in_ns(attrs[k], ns)
    &&& forall|j: int| 0 <= j < attrs.len() && j != k ==> !in_ns(#[trigger] attrs[j], ns)
}

/// `attrs[i]` is the first annotation of `ns` in `attrs`.
pub open spec fn first_in_ns<P>(attrs: Seq<Attribute<P>>, ns: Seq<char>, i: int) -> bool {
    &&& 0 <= i < attrs.len()
    &&& in_ns(attrs[i], ns)
    &&& none_in_ns(attrs.subrange(0, i), ns)
}

/// At least two annotations of `attrs` are in the namespace `ns`.
pub open spec fn twice_in_ns<P>(attrs: Seq<Attribute<P>>, ns: Seq<char>) -> bool {
    exists|i: int, j: int|
        0 <= i < j < attrs.len() && #[trigger] in_ns(attrs[i], ns) && #[trigger] in_ns(attrs[j], ns)
}

/// The outcome of looking for the one annotation of `ns` in `attrs`:
/// `Ok(None)` when there is none, `Ok(Some(i))` when `attrs[i]` is the only
/// one, and otherwise an error at the second one.
pub open spec fn found_ns<P>(
    r: Result<Option<usize>, Error<P>>,
    attrs: Seq<Attribute<P>>,
    ns: Seq<char>,
) -> bool {
    match r {
        Ok(None) => none_in_ns(attrs, ns),
        Ok(Some(k)) => only_in_ns(attrs, ns, k as int),
        Err(e) => exists|i: int, j: int|
            {
                &&& 0 <= i < j < attrs.len()
                &&& #[trigger] in_ns(attrs[i], ns)
                &&& #[trigger] in_ns(attrs[j], ns)
                &&& forall|k: int| 0 <= k < j && k != i ==> !in_ns(#[trigger] attrs[k], ns)
                &&& e.span == attrs[j].span
                &&& e.message@ == already_msg(ns)
            },
    }
}

fn is_ns<P>(a: &Attribute<P>, ns: &str) -> (r: bool)
    ensures
        r == in_ns(*a, ns@),
{
    match &a.path_ident {
        Some(id) => *id == String::from_str(ns),
        None => false,
    }
}

fn ns_message(ns: &str, tail: &str) -> (r: String)
    ensures
        r@ == "Attribute #["@ + ns@ + tail@,
{
    let mut m = String::from_str("Attribute #[");
    m.append(ns);
    m.append(tail);
    m
}

/// Looks for the single annotation of the namespace `ns`: none gives
/// `Ok(None)`, exactly one gives its index, two or more give an "already
/// configured" diagnostic at the second.
pub fn find_ns_attr<P: Copy>(attrs: &[Attribute<P>], ns: &str) -> (r: Result<
    Option<usize>,
    Error<P>,
>)
    ensures
        found_ns(r, attrs@, ns@),
{
    let mut found: Option<usize> = None;
    let mut i: usize = 0;
    while i < attrs.len()
        invariant
            0 <= i <= attrs.len(),
            match found {
                None => none_in_ns(attrs@.subrange(0, i as int), ns@),
                Some(k) => {
                    &&& k < i
                    &&& in_ns(attrs@[k as int], ns@)
                    &&& forall|j: int| 0 <= j < i && j != k ==> !in_ns(#[trigger] attrs@[j], ns@)
                },
            },
        decreases attrs.len() - i,
    {
        if is_ns(&attrs[i], ns) {
            match found {
                Some(k) => {
                    proof {
                        assert(in_ns(attrs@[k as int], ns@));
                        assert(in_ns(attrs@[i as int], ns@));
                    }
                    let message = ns_message(ns, "] Is Already Configured");
                    proof {
                        assert(message@ =~= already_msg(ns@));
                    }
                    return Err(Error { span: attrs[i].span, message });
                },
                None => {
                    proof {
                        assert forall|j: int| 0 <= j < i + 1 && j != i implies !in_ns(
                            #[trigger] attrs@[j],
                            ns@,
                        ) by {
                            assert(attrs@.subrange(0, i as int)[j] == attrs@[j]);
                        }
                    }
                    found = Some(i);
                },
            }
        } else {
            proof {
                match found {
                    None => {
                        assert forall|j: int| 0 <= j < i + 1 implies !in_ns(
                            #[trigger] attrs@.subrange(0, i + 1)[j],
                            ns@,
                        ) by {
                            if j < i {
                                assert(attrs@.subrange(0, i as int)[j] == attrs@[j]);
                            }
                        }
                    },
                    Some(k) => {},
                }
            }
        }
        i = i + 1;
    }
    proof {
        if found is None {
            assert(attrs@.subrange(0, attrs.len() as int) =~= attrs@);
        }
    }
    Ok(found)
}

/// Rejects an annotation of the namespace `ns` at the given level: the
/// first one found gives a "not allowed" diagnostic at its position.
pub fn forbid_ns_attr<P: Copy>(attrs: &[Attribute<P>], ns: &str, level: AttrLevel) -> (r: Result<
    (),
    Error<P>,
>)
    ensures
        r is Ok <==> none_in_ns(attrs@, ns@),
        r matches Err(e) ==> exists|i: int| #[trigger] first_in_ns(attrs@, ns@, i)
            && e.span == attrs@[i].span && e.message@ == not_allowed_msg(ns@, level),
{
    let mut i: usize = 0;
    while i < attrs.len()
        invariant
            0 <= i <= attrs.len(),
            none_in_ns(attrs@.subrange(0, i as int), ns@),
        decreases attrs.len() - i,
    {
        if is_ns(&attrs[i], ns) {
            let mut message = ns_message(ns, "] Is Not Allowed At The ");
            message.append(level.name());
            message.append(" Level");
            proof {
                assert(message@ =~= not_allowed_msg(ns@, level));
                assert(first_in_ns(attrs@, ns@, i as int));
            }
            return Err(Error { span: attrs[i].span, message });
        }
        proof {
            assert forall|j: int| 0 <= j < i + 1 implies !in_ns(
                #[trigger] attrs@.subrange(0, i + 1)[j],
                ns@,
            ) by {
                if j < i {
                    assert(attrs@.subrange(0, i as int)[j] == attrs@[j]);
                }
            }
        }
        i = i + 1;
    }
    proof {
        assert(attrs@.subrange(0, attrs.len() as int) =~= attrs@);
    }
    Ok(())
}

/// An annotation with a fixed namespace, read from its arguments.
pub trait NsAttr<P: Copy>: Sized {
    /// The namespace: the name in `#[name(...)]`.
    const NS: &'static str;

    /// Reads the annotation's arguments.
    fn parse_args(attr: &Attribute<P>) -> Result<Self, Error<P>>;

    /// The annotation of this namespace, if there is one: none gives
    /// `Ok(None)`; exactly one is read with `parse_args`; two or more give
    /// an "already configured" diagnostic at the second.
    fn from_attrs_opt(attrs: &[Attribute<P>]) -> (r: Result<Option<Self>, Error<P>>)
        ensures
            r matches Ok(None) <==> none_in_ns(attrs@, Self::NS@),
            r matches Ok(Some(_)) ==> exists|k: int| #[trigger] only_in_ns(attrs@, Self::NS@, k),
            twice_in_ns(attrs@, Self::NS@) ==> (r matches Err(e) && found_ns(
                Err::<Option<usize>, _>(e),
                attrs@,
                Self::NS@,
            )),
            r is Err && !twice_in_ns(attrs@, Self::NS@) ==> exists|k: int| #[trigger] only_in_ns(
                attrs@,
                Self::NS@,
                k,
            ),
    {
        match find_ns_attr(attrs, Self::NS) {
            Err(e) => Err(e),
            Ok(None) => Ok(None),
            Ok(Some(k)) => match Self::parse_args(&attrs[k]) {
                Ok(v) => Ok(Some(v)),
                Err(e) => Err(e),
            },
        }
    }

    /// The annotation of this namespace, which must be there: as
    /// `from_attrs_opt`, and a "required" diagnostic at `span` when there is
    /// none.
    fn from_attrs(attrs: &[Attribute<P>], span: P) -> (r: Result<Self, Error<P>>)
        ensures
            none_in_ns(attrs@, Self::NS@) ==> (r matches Err(e) && e.span == span && e.message@
                == required_msg(Self::NS@)),
            twice_in_ns(attrs@, Self::NS@) ==> (r matches Err(e) && found_ns(
                Err::<Option<usize>, _>(e),
                attrs@,
                Self::NS@,
            )),
            r is Ok ==> exists|k: int| #[trigger] only_in_ns(attrs@, Self::NS@, k),
    {
        match Self::from_attrs_opt(attrs) {
            Err(e) => Err(e),
            Ok(Some(v)) => Ok(v),
            Ok(None) => {
                let message = ns_message(Self::NS, "] Is Required");
                proof {
                    assert(message@ =~= required_msg(Self::NS@));
                }
                Err(Error { span, message })
            },
        }
    }

    /// Rejects any annotation of this namespace at the given level.
    fn no_attrs(attrs: &[Attribute<P>], level: AttrLevel) -> (r: Result<(), Error<P>>)
        ensures
            r is Ok <==> none_in_ns(attrs@, Self::NS@),
            r matches Err(e) ==> exists|i: int| #[trigger] first_in_ns(attrs@, Self::NS@, i)
                && e.span == attrs@[i].span && e.message@ == not_allowed_msg(Self::NS@, level),
    {
        forbid_ns_attr(attrs, Self::NS, level)
    }
}

} // verus!
