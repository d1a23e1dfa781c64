//! Attributes that are meant for what is generated: `for_field(name, attr)`
//! puts `attr` on the field `name` of the record, `for_struct(attr)` puts it
//! on the record itself.

use vstd::prelude::*;
use vstd::string::StringExecFns;
use crate::args::Meta;
use crate::args::NestedMeta;
use crate::ty::str_is;

verus! {

/// Where an attribute is to go.
#[derive(Debug, PartialEq, Eq)]
pub enum AttrLocation {
    Struct,
    /// On the field that is named by how the first element of the list
    /// prints.
    Field(String),
}

/// An attribute and where it is to go.
#[derive(Debug, PartialEq, Eq)]
pub struct ParsedAttr<'a> {
    pub location: AttrLocation,
    pub content: &'a Meta,
}

/// The content of a `ParsedAttr`: the field it is to go on, if it goes on a
/// field, and the attribute.
pub struct ParsedAttrView {
    pub field: Option<Seq<char>>,
    pub content: Meta,
}

impl<'a> View for ParsedAttr<'a> {
    type V = ParsedAttrView;

    open spec fn view(&self) -> ParsedAttrView {
        ParsedAttrView {
            field: match self.location {
                AttrLocation::Struct => None,
                AttrLocation::Field(name) => Some(name@),
            },
            content: *self.content,
        }
    }
}

/// An attribute on a function: the meta item that it reads as, if it reads
/// as one, and how the first element of its list prints.
#[derive(Debug, PartialEq, Eq)]
pub struct FnAttribute {
    pub meta: Option<Meta>,
    pub first_printed: String,
}

/// Why an attribute cannot be placed.
#[derive(PartialEq, Eq, Structural, Clone, Copy, Debug)]
pub enum AttrError {
    /// The attribute does not read as a meta item.
    NotAMeta,
    /// The attribute is not a list.
    NotAList,
    /// The list is neither `for_field` nor `for_struct`.
    UnknownAttribute,
    /// `for_field` is given nothing.
    NoValues,
    /// The field is named neither by a literal nor by a lone identifier.
    BadFieldName,
    /// The attribute that is to be placed is missing.
    NotEnoughItems,
    /// A literal stands where the attribute that is to be placed is expected.
    LiteralAnnotation,
    /// More follows the attribute that is to be placed.
    TooManyItems,
}

/// Whether an element of a list can name a field: a literal can, and a lone
/// identifier.
pub open spec fn spec_names_a_field(first: NestedMeta) -> bool {
    match first {
        NestedMeta::Literal(_) => true,
        NestedMeta::Meta(Meta::Word(_)) => true,
        NestedMeta::Meta(_) => false,
    }
}

/// The attribute at index `k` of a list, placed on `field`; nothing may
/// follow it, and it may be no literal.
pub open spec fn spec_place(nested: Seq<NestedMeta>, k: int, field: Option<Seq<char>>) -> Result<
    ParsedAttrView,
    AttrError,
> {
    if nested.len() <= k {
        Err(AttrError::NotEnoughItems)
    } else {
        match nested[k] {
            NestedMeta::Literal(_) => Err(AttrError::LiteralAnnotation),
            NestedMeta::Meta(content) => if nested.len() > k + 1 {
                Err(AttrError::TooManyItems)
            } else {
                Ok(ParsedAttrView { field, content })
            },
        }
    }
}

/// Where a meta item puts which attribute. `for_field(name, attr)` puts
/// `attr` on the field that `first_printed` names, `for_struct(attr)` puts
/// it on the record.
pub open spec fn spec_parse_meta(meta: Meta, first_printed: Seq<char>) -> Result<
    ParsedAttrView,
    AttrError,
> {
    match meta {
        Meta::List(list) => if list.ident@ == "for_field"@ {
            if list.nested@.len() == 0 {
                Err(AttrError::NoValues)
            } else if !spec_names_a_field(list.nested@[0]) {
                Err(AttrError::BadFieldName)
            } else {
                spec_place(list.nested@, 1, Some(first_printed))
            }
        } else if list.ident@ == "for_struct"@ {
            spec_place(list.nested@, 0, None)
        } else {
            Err(AttrError::UnknownAttribute)
        },
        _ => Err(AttrError::NotAList),
    }
}

/// Where an attribute of a function puts which attribute.
pub open spec fn spec_parse_attr(attr: FnAttribute) -> Result<ParsedAttrView, AttrError> {
    match attr.meta {
        Some(meta) => spec_parse_meta(meta, attr.first_printed@),
        None => Err(AttrError::NotAMeta),
    }
}

/// Why the first of the first `n` attributes that cannot be placed cannot.
pub open spec fn spec_first_attr_error(attrs: Seq<FnAttribute>, n: nat) -> Option<AttrError>
    decreases n,
{
    if n == 0 {
        None
    } else {
        match spec_first_attr_error(attrs, (n - 1) as nat) {
            Some(e) => Some(e),
            None => match spec_parse_attr(attrs[n - 1]) {
                Err(e) => Some(e),
                Ok(_) => None,
            },
        }
    }
}

proof fn lemma_attr_error_stays(attrs: Seq<FnAttribute>, n: nat, m: nat)
    requires
        n <= m,
        spec_first_attr_error(attrs, n) is Some,
    ensures
        spec_first_attr_error(attrs, m) == spec_first_attr_error(attrs, n),
    decreases m,
{
    if n < m {
        lemma_attr_error_stays(attrs, n, (m - 1) as nat);
    }
}

fn place<'a>(nested: &'a Vec<NestedMeta>, k: usize, location: AttrLocation) -> (r: Result<
    ParsedAttr<'a>,
    AttrError,
>)
    requires
        k <= 1,
    ensures
        match r {
            Ok(parsed) => parsed.location == location && spec_place(
                nested@,
                k as int,
                parsed@.field,
            ) == Ok::<_, AttrError>(parsed@),
            Err(e) => forall|field: Option<Seq<char>>|
                #[trigger] spec_place(nested@, k as int, field) == Err::<ParsedAttrView, _>(e),
        },
{
    if nested.len() <= k {
        return Err(AttrError::NotEnoughItems);
    }
    match &nested[k] {
        NestedMeta::Literal(_) => Err(AttrError::LiteralAnnotation),
        NestedMeta::Meta(content) => {
            if nested.len() > k + 1 {
                Err(AttrError::TooManyItems)
            } else {
                Ok(ParsedAttr { location, content })
            }
        },
    }
}

/// Where a meta item puts which attribute. `first_printed` is how the first
/// element of its list prints; it names the field for `for_field`.
pub fn parse_meta<'a>(meta: &'a Meta, first_printed: &str) -> (r: Result<ParsedAttr<'a>, AttrError>)
    ensures
        match r {
            Ok(parsed) => spec_parse_meta(*meta, first_printed@) == Ok::<_, AttrError>(parsed@),
            Err(e) => spec_parse_meta(*meta, first_printed@) == Err::<ParsedAttrView, _>(e),
        },
{
    let list = match meta {
        Meta::List(list) => list,
        _ => {
            return Err(AttrError::NotAList);
        },
    };
    if str_is(&list.ident, "for_field") {
        if list.nested.len() == 0 {
            return Err(AttrError::NoValues);
        }
        let named = match &list.nested[0] {
            NestedMeta::Literal(_) => true,
            NestedMeta::Meta(Meta::Word(_)) => true,
            NestedMeta::Meta(_) => false,
        };
        if !named {
            return Err(AttrError::BadFieldName);
        }
        place(&list.nested, 1, AttrLocation::Field(String::from_str(first_printed)))
    } else if str_is(&list.ident, "for_struct") {
        place(&list.nested, 0, AttrLocation::Struct)
    } else {
        Err(AttrError::UnknownAttribute)
    }
}

/// Where the attributes of a function put which attributes, in order. The
/// first attribute that cannot be placed decides the error.
pub fn parse_attrs<'a>(attrs: &'a Vec<FnAttribute>) -> (r: Result<Vec<ParsedAttr<'a>>, AttrError>)
    ensures
        match r {
            Ok(parsed) => {
                &&& spec_first_attr_error(attrs@, attrs@.len()) is None
                &&& parsed@.len() == attrs@.len()
                &&& forall|k: int|
                    0 <= k < attrs@.len() ==> spec_parse_attr(attrs@[k]) == Ok::<_, AttrError>(
                        (#[trigger] parsed@[k])@,
                    )
            },
            Err(e) => spec_first_attr_error(attrs@, attrs@.len()) == Some(e),
        },
{
    let n = attrs.len();
    let mut parsed: Vec<ParsedAttr<'a>> = Vec::new();
    let mut j: usize = 0;
    while j < n
        invariant
            n == attrs@.len(),
            j <= n,
            spec_first_attr_error(attrs@, j as nat) is None,
            parsed@.len() == j,
            forall|k: int|
                0 <= k < j ==> spec_parse_attr(attrs@[k]) == Ok::<_, AttrError>(
                    (#[trigger] parsed@[k])@,
                ),
        decreases n - j,
    {
        proof {
            if spec_parse_attr(attrs@[j as int]) is Err {
                lemma_attr_error_stays(attrs@, (j + 1) as nat, n as nat);
            }
        }
        let attr = &attrs[j];
        let meta = match &attr.meta {
            Some(meta) => meta,
            None => {
                return Err(AttrError::NotAMeta);
            },
        };
        match parse_meta(meta, attr.first_printed.as_str()) {
            Ok(one) => {
                parsed.push(one);
            },
            Err(e) => {
                return Err(e);
            },
        }
        j += 1;
    }
    Ok(parsed)
}

} // verus!
