//! The annotation of a callable: which parameters are positional, and which
//! named parameters have a default.
//!
//! The annotation arrives as a meta item, a list of the form
//! `defaults(name = "expr", ..), positionals(name, ..)`.

use vstd::prelude::*;
use crate::ty::str_is;
use crate::ty::Expr;

verus! {

/// A string literal in an annotation.
#[derive(Debug, PartialEq, Eq)]
pub struct LitStr {
    /// The value of the literal.
    pub value: String,
    /// Whether the value reads as an expression, as who read the annotation
    /// found it.
    pub is_expr: bool,
}

/// A literal in an annotation.
#[derive(Debug, PartialEq, Eq)]
pub enum Lit {
    Str(LitStr),
    /// Any other literal.
    Other,
}

/// `ident = lit`
#[derive(Debug, PartialEq, Eq)]
pub struct MetaNameValue {
    pub ident: String,
    pub lit: Lit,
}

/// `ident(nested, ..)`
#[derive(Debug, PartialEq, Eq)]
pub struct MetaList {
    pub ident: String,
    pub nested: Vec<NestedMeta>,
}

/// A structured annotation.
#[derive(Debug, PartialEq, Eq)]
pub enum Meta {
    /// A lone identifier.
    Word(String),
    List(MetaList),
    NameValue(MetaNameValue),
}

/// An element of a list in an annotation.
#[derive(Debug, PartialEq, Eq)]
pub enum NestedMeta {
    Meta(Meta),
    Literal(Lit),
}

/// What an annotation says of the parameters of its callable. In what
/// [`parse_args`] returns, no two defaults are given for one name.
#[derive(Debug, PartialEq, Eq)]
pub struct Args {
    /// The defaults, in the order they were written: the name of a parameter
    /// and the expression that stands in for it.
    pub defaults: Vec<(String, Expr)>,
    /// The names of the positional parameters, in the order they were written.
    pub positional: Vec<String>,
}

/// The content of an `Args`.
pub struct ArgsView {
    pub defaults: Seq<(String, Expr)>,
    pub positional: Seq<String>,
}

impl View for Args {
    type V = ArgsView;

    open spec fn view(&self) -> ArgsView {
        ArgsView { defaults: self.defaults@, positional: self.positional@ }
    }
}

/// Whether two defaults are given for one name.
pub open spec fn spec_has_duplicate(defaults: Seq<(String, Expr)>) -> bool {
    exists|i: int, j: int|
        0 <= i < j < defaults.len() && (#[trigger] defaults[i]).0@ == (#[trigger] defaults[j]).0@
}

/// Whether two defaults are given for one name.
pub fn has_duplicate(defaults: &Vec<(String, Expr)>) -> (r: bool)
    ensures
        r == spec_has_duplicate(defaults@),
{
    let n = defaults.len();
    let mut j: usize = 0;
    while j < n
        invariant
            n == defaults@.len(),
            j <= n,
            forall|a: int, b: int|
                0 <= a < b < j ==> (#[trigger] defaults@[a]).0@ != (#[trigger] defaults@[b]).0@,
        decreases n - j,
    {
        let mut i: usize = 0;
        while i < j
            invariant
                n == defaults@.len(),
                j < n,
                i <= j,
                forall|a: int|
                    0 <= a < i ==> (#[trigger] defaults@[a]).0@ != defaults@[j as int].0@,
            decreases j - i,
        {
            if defaults[i].0 == defaults[j].0 {
                return true;
            }
            i += 1;
        }
        j += 1;
    }
    false
}

impl Args {
    /// No two defaults are given for one name.
    pub open spec fn wf(&self) -> bool {
        !spec_has_duplicate(self.defaults@)
    }

    /// Whether no two defaults are given for one name.
    pub fn is_wf(&self) -> (r: bool)
        ensures
            r == self.wf(),
    {
        !has_duplicate(&self.defaults)
    }
}

/// Why an annotation cannot be read.
#[derive(PartialEq, Eq, Structural, Clone, Copy, Debug)]
pub enum ArgsError {
    /// The annotation is not a list.
    NotAList,
    /// A literal stands where a meta item is expected.
    BadNesting,
    /// A section occurs twice.
    DoubleAnnotation,
    /// The section is reserved (`on_struct`, `on_fields`).
    Unimplemented,
    /// The section is none of those that are known.
    UnknownSection,
    /// A section is not a list.
    NotASection,
    /// A positional parameter is not given as a lone identifier.
    BadPositionalName,
    /// A default is not of the form `name = value`.
    BadDefaultFormat,
    /// The value of a default is not a string literal.
    NotAStringLiteral,
    /// The value of a default does not read as an expression.
    NotAnExpression,
    /// Two defaults are given for one name.
    DuplicateDefault,
}

impl Meta {
    /// The identifier that the meta item starts with.
    pub open spec fn spec_name(&self) -> String {
        match *self {
            Meta::Word(ident) => ident,
            Meta::List(list) => list.ident,
            Meta::NameValue(pair) => pair.ident,
        }
    }

    /// The identifier that the meta item starts with.
    #[verifier::when_used_as_spec(spec_name)]
    pub fn name(&self) -> (r: String)
        ensures
            r == self.spec_name(),
    {
        match self {
            Meta::Word(ident) => ident.clone(),
            Meta::List(list) => list.ident.clone(),
            Meta::NameValue(pair) => pair.ident.clone(),
        }
    }
}

/// The expression that a literal holds: the value of a string literal that
/// reads as an expression.
pub open spec fn spec_as_expr(lit: Lit) -> Result<Expr, ArgsError> {
    match lit {
        Lit::Str(text) => if text.is_expr {
            Ok(Expr { tokens: text.value })
        } else {
            Err(ArgsError::NotAnExpression)
        },
        Lit::Other => Err(ArgsError::NotAStringLiteral),
    }
}

/// The default that a meta item of the form `name = "expr"` declares.
pub open spec fn spec_extract_default(m: Meta) -> Result<(String, Expr), ArgsError> {
    match m {
        Meta::NameValue(pair) => match spec_as_expr(pair.lit) {
            Ok(expr) => Ok((pair.ident, expr)),
            Err(e) => Err(e),
        },
        _ => Err(ArgsError::BadDefaultFormat),
    }
}

/// The positional name that a lone identifier declares.
pub open spec fn spec_extract_positional_name(m: Meta) -> Result<String, ArgsError> {
    match m {
        Meta::Word(ident) => Ok(ident),
        _ => Err(ArgsError::BadPositionalName),
    }
}

/// The defaults that the first `n` elements of a `defaults(..)` list declare.
pub open spec fn spec_defaults_of(nested: Seq<NestedMeta>, n: nat) -> Result<
    Seq<(String, Expr)>,
    ArgsError,
>
    decreases n,
{
    if n == 0 {
        Ok(Seq::empty())
    } else {
        match spec_defaults_of(nested, (n - 1) as nat) {
            Err(e) => Err(e),
            Ok(found) => match nested[n - 1] {
                NestedMeta::Literal(_) => Err(ArgsError::BadNesting),
                NestedMeta::Meta(m) => match spec_extract_default(m) {
                    Ok(pair) => Ok(found.push(pair)),
                    Err(e) => Err(e),
                },
            },
        }
    }
}

/// The names that the first `n` elements of a `positionals(..)` list declare.
pub open spec fn spec_positionals_of(nested: Seq<NestedMeta>, n: nat) -> Result<
    Seq<String>,
    ArgsError,
>
    decreases n,
{
    if n == 0 {
        Ok(Seq::empty())
    } else {
        match spec_positionals_of(nested, (n - 1) as nat) {
            Err(e) => Err(e),
            Ok(found) => match nested[n - 1] {
                NestedMeta::Literal(_) => Err(ArgsError::BadNesting),
                NestedMeta::Meta(m) => match spec_extract_positional_name(m) {
                    Ok(name) => Ok(found.push(name)),
                    Err(e) => Err(e),
                },
            },
        }
    }
}

/// The defaults that a `defaults(..)` section declares.
pub open spec fn spec_process_defaults(meta: Meta) -> Result<Seq<(String, Expr)>, ArgsError> {
    match meta {
        Meta::List(list) => spec_defaults_of(list.nested@, list.nested@.len()),
        _ => Err(ArgsError::NotASection),
    }
}

/// The names that a `positionals(..)` section declares.
pub open spec fn spec_process_positionals(meta: Meta) -> Result<Seq<String>, ArgsError> {
    match meta {
        Meta::List(list) => spec_positionals_of(list.nested@, list.nested@.len()),
        _ => Err(ArgsError::NotASection),
    }
}

/// Whether `item` is a meta item that starts with `name`.
pub open spec fn spec_starts_with(item: NestedMeta, name: Seq<char>) -> bool {
    match item {
        NestedMeta::Meta(m) => m.spec_name()@ == name,
        NestedMeta::Literal(_) => false,
    }
}

/// Whether one of the first `k` elements is a meta item that starts with
/// `name`.
pub open spec fn spec_seen(nested: Seq<NestedMeta>, k: int, name: Seq<char>) -> bool {
    exists|j: int| 0 <= j < k && spec_starts_with(#[trigger] nested[j], name)
}

/// What the section at index `k` adds to what the sections before it gave.
pub open spec fn spec_section(nested: Seq<NestedMeta>, k: int, before: ArgsView) -> Result<
    ArgsView,
    ArgsError,
> {
    match nested[k] {
        NestedMeta::Literal(_) => Err(ArgsError::BadNesting),
        NestedMeta::Meta(value) => {
            let name = value.spec_name()@;
            if spec_seen(nested, k, name) {
                Err(ArgsError::DoubleAnnotation)
            } else if name == "defaults"@ {
                match spec_process_defaults(value) {
                    Ok(defaults) => Ok(ArgsView { defaults, positional: before.positional }),
                    Err(e) => Err(e),
                }
            } else if name == "on_struct"@ || name == "on_fields"@ {
                Err(ArgsError::Unimplemented)
            } else if name == "positionals"@ {
                match spec_process_positionals(value) {
                    Ok(positional) => Ok(ArgsView { defaults: before.defaults, positional }),
                    Err(e) => Err(e),
                }
            } else {
                Err(ArgsError::UnknownSection)
            }
        },
    }
}

/// What the first `n` sections of an annotation say.
pub open spec fn spec_sections(nested: Seq<NestedMeta>, n: nat) -> Result<ArgsView, ArgsError>
    decreases n,
{
    if n == 0 {
        Ok(ArgsView { defaults: Seq::empty(), positional: Seq::empty() })
    } else {
        match spec_sections(nested, (n - 1) as nat) {
            Err(e) => Err(e),
            Ok(before) => spec_section(nested, n - 1, before),
        }
    }
}

/// What the sections of an annotation say: they are read in order, and the
/// first one that cannot be read decides the error.
pub open spec fn spec_read_sections(meta: Meta) -> Result<ArgsView, ArgsError> {
    match meta {
        Meta::List(list) => spec_sections(list.nested@, list.nested@.len()),
        _ => Err(ArgsError::NotAList),
    }
}

/// What an annotation says: what its sections say, unless they give two
/// defaults for one name.
pub open spec fn spec_parse_args(meta: Meta) -> Result<ArgsView, ArgsError> {
    match spec_read_sections(meta) {
        Ok(read) => if spec_has_duplicate(read.defaults) {
            Err(ArgsError::DuplicateDefault)
        } else {
            Ok(read)
        },
        Err(e) => Err(e),
    }
}

/// The expression that a literal holds: the value of a string literal that
/// reads as an expression.
pub fn as_expr(lit: &Lit) -> (r: Result<Expr, ArgsError>)
    ensures
        r == spec_as_expr(*lit),
{
    match lit {
        Lit::Str(text) => {
            if text.is_expr {
                Ok(Expr { tokens: text.value.clone() })
            } else {
                Err(ArgsError::NotAnExpression)
            }
        },
        Lit::Other => Err(ArgsError::NotAStringLiteral),
    }
}

/// The default that a meta item of the form `name = "expr"` declares.
pub fn extract_default(m: &Meta) -> (r: Result<(String, Expr), ArgsError>)
    ensures
        r == spec_extract_default(*m),
{
    match m {
        Meta::NameValue(pair) => match as_expr(&pair.lit) {
            Ok(expr) => Ok((pair.ident.clone(), expr)),
            Err(e) => Err(e),
        },
        _ => Err(ArgsError::BadDefaultFormat),
    }
}

/// The positional name that a lone identifier declares.
pub fn extract_positional_name(meta: &Meta) -> (r: Result<String, ArgsError>)
    ensures
        r == spec_extract_positional_name(*meta),
{
    match meta {
        Meta::Word(ident) => Ok(ident.clone()),
        _ => Err(ArgsError::BadPositionalName),
    }
}

/// The defaults that a `defaults(..)` section declares, in the order they are
/// written. The first element that declares none decides the error.
pub fn process_defaults(meta: &Meta) -> (r: Result<Vec<(String, Expr)>, ArgsError>)
    ensures
        match r {
            Ok(defaults) => spec_process_defaults(*meta) == Ok::<_, ArgsError>(defaults@),
            Err(e) => spec_process_defaults(*meta) == Err::<Seq<(String, Expr)>, _>(e),
        },
{
    match meta {
        Meta::List(list) => {
            let n = list.nested.len();
            let mut found: Vec<(String, Expr)> = Vec::new();
            let mut j: usize = 0;
            while j < n
                invariant
                    *meta == Meta::List(*list),
                    n == list.nested@.len(),
                    j <= n,
                    spec_defaults_of(list.nested@, j as nat) == Ok::<_, ArgsError>(found@),
                decreases n - j,
            {
                match &list.nested[j] {
                    NestedMeta::Literal(_) => {
                        proof {
                            lemma_defaults_error_stays(list.nested@, (j + 1) as nat, n as nat);
                        }
                        return Err(ArgsError::BadNesting);
                    },
                    NestedMeta::Meta(m) => match extract_default(m) {
                        Ok(pair) => {
                            found.push(pair);
                        },
                        Err(e) => {
                            proof {
                                lemma_defaults_error_stays(list.nested@, (j + 1) as nat, n as nat);
                            }
                            return Err(e);
                        },
                    },
                }
                j += 1;
            }
            Ok(found)
        },
        _ => Err(ArgsError::NotASection),
    }
}

/// The names that a `positionals(..)` section declares, in the order they are
/// written. The first element that declares none decides the error.
pub fn process_positionals(meta: &Meta) -> (r: Result<Vec<String>, ArgsError>)
    ensures
        match r {
            Ok(names) => spec_process_positionals(*meta) == Ok::<_, ArgsError>(names@),
            Err(e) => spec_process_positionals(*meta) == Err::<Seq<String>, _>(e),
        },
{
    match meta {
        Meta::List(list) => {
            let n = list.nested.len();
            let mut found: Vec<String> = Vec::new();
            let mut j: usize = 0;
            while j < n
                invariant
                    *meta == Meta::List(*list),
                    n == list.nested@.len(),
                    j <= n,
                    spec_positionals_of(list.nested@, j as nat) == Ok::<_, ArgsError>(found@),
                decreases n - j,
            {
                match &list.nested[j] {
                    NestedMeta::Literal(_) => {
                        proof {
                            lemma_positionals_error_stays(list.nested@, (j + 1) as nat, n as nat);
                        }
                        return Err(ArgsError::BadNesting);
                    },
                    NestedMeta::Meta(m) => match extract_positional_name(m) {
                        Ok(name) => {
                            found.push(name);
                        },
                        Err(e) => {
                            proof {
                                lemma_positionals_error_stays(
                                    list.nested@,
                                    (j + 1) as nat,
                                    n as nat,
                                );
                            }
                            return Err(e);
                        },
                    },
                }
                j += 1;
            }
            Ok(found)
        },
        _ => Err(ArgsError::NotASection),
    }
}

proof fn lemma_defaults_error_stays(nested: Seq<NestedMeta>, n: nat, m: nat)
    requires
        n <= m,
        spec_defaults_of(nested, n) is Err,
    ensures
        spec_defaults_of(nested, m) == spec_defaults_of(nested, n),
    decreases m,
{
    if n < m {
        lemma_defaults_error_stays(nested, n, (m - 1) as nat);
    }
}

proof fn lemma_positionals_error_stays(nested: Seq<NestedMeta>, n: nat, m: nat)
    requires
        n <= m,
        spec_positionals_of(nested, n) is Err,
    ensures
        spec_positionals_of(nested, m) == spec_positionals_of(nested, n),
    decreases m,
{
    if n < m {
        lemma_positionals_error_stays(nested, n, (m - 1) as nat);
    }
}

proof fn lemma_sections_error_stays(nested: Seq<NestedMeta>, n: nat, m: nat)
    requires
        n <= m,
        spec_sections(nested, n) is Err,
    ensures
        spec_sections(nested, m) == spec_sections(nested, n),
    decreases m,
{
    if n < m {
        lemma_sections_error_stays(nested, n, (m - 1) as nat);
    }
}

/// Whether one of `names` reads as `name`.
fn contains_name(names: &Vec<String>, name: &String) -> (r: bool)
    ensures
        r == exists|j: int| 0 <= j < names@.len() && (#[trigger] names@[j])@ == name@,
{
    let n = names.len();
    let mut j: usize = 0;
    while j < n
        invariant
            n == names@.len(),
            j <= n,
            forall|k: int| 0 <= k < j ==> (#[trigger] names@[k])@ != name@,
        decreases n - j,
    {
        if names[j] == *name {
            return true;
        }
        j += 1;
    }
    false
}

/// What an annotation says. Its sections are read in order: `defaults(..)`
/// and `positionals(..)`, each once at most. The first section that cannot
/// be read decides the error. Two defaults for one name are refused.
pub fn parse_args(meta: &Meta) -> (r: Result<Args, ArgsError>)
    ensures
        match r {
            Ok(args) => spec_parse_args(*meta) == Ok::<_, ArgsError>(args@) && args.wf(),
            Err(e) => spec_parse_args(*meta) == Err::<ArgsView, _>(e),
        },
{
    match read_sections(meta) {
        Ok(args) => {
            if has_duplicate(&args.defaults) {
                Err(ArgsError::DuplicateDefault)
            } else {
                Ok(args)
            }
        },
        Err(e) => Err(e),
    }
}

fn read_sections(meta: &Meta) -> (r: Result<Args, ArgsError>)
    ensures
        match r {
            Ok(args) => spec_read_sections(*meta) == Ok::<_, ArgsError>(args@),
            Err(e) => spec_read_sections(*meta) == Err::<ArgsView, _>(e),
        },
{
    let list = match meta {
        Meta::List(list) => list,
        _ => {
            return Err(ArgsError::NotAList);
        },
    };
    let n = list.nested.len();
    let mut args = Args { defaults: Vec::new(), positional: Vec::new() };
    let mut processed: Vec<String> = Vec::new();
    let mut j: usize = 0;
    while j < n
        invariant
            *meta == Meta::List(*list),
            n == list.nested@.len(),
            j <= n,
            spec_sections(list.nested@, j as nat) == Ok::<_, ArgsError>(args@),
            processed@.len() == j,
            forall|a: int, b: int|
                0 <= a < b < j ==> (#[trigger] processed@[a])@ != (#[trigger] processed@[b])@,
            forall|k: int|
                0 <= k < j ==> spec_starts_with(#[trigger] list.nested@[k], processed@[k]@),
        decreases n - j,
    {
        proof {
            if spec_section(list.nested@, j as int, args@) is Err {
                lemma_sections_error_stays(list.nested@, (j + 1) as nat, n as nat);
            }
        }
        let value = match &list.nested[j] {
            NestedMeta::Literal(_) => {
                return Err(ArgsError::BadNesting);
            },
            NestedMeta::Meta(value) => value,
        };
        let raw_name = value.name();
        let seen = contains_name(&processed, &raw_name);
        proof {
            let nested = list.nested@;
            if seen {
                let k = choose|k: int|
                    0 <= k < processed@.len() && (#[trigger] processed@[k])@ == raw_name@;
                assert(spec_starts_with(nested[k], raw_name@));
            }
            if spec_seen(nested, j as int, raw_name@) {
                let k = choose|k: int|
                    0 <= k < j && spec_starts_with(#[trigger] nested[k], raw_name@);
                assert(processed@[k]@ == raw_name@);
            }
        }
        if seen {
            return Err(ArgsError::DoubleAnnotation);
        }
        if str_is(&raw_name, "defaults") {
            match process_defaults(value) {
                Ok(defaults) => {
                    args.defaults = defaults;
                },
                Err(e) => {
                    return Err(e);
                },
            }
        } else if str_is(&raw_name, "on_struct") || str_is(&raw_name, "on_fields") {
            return Err(ArgsError::Unimplemented);
        } else if str_is(&raw_name, "positionals") {
            match process_positionals(value) {
                Ok(positional) => {
                    args.positional = positional;
                },
                Err(e) => {
                    return Err(e);
                },
            }
        } else {
            return Err(ArgsError::UnknownSection);
        }
        processed.push(raw_name);
        j += 1;
    }
    Ok(args)
}

} // verus!
