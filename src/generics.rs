use vstd::prelude::*;
use vstd::string::StringExecFns;

use crate::fields::{snake_of, to_snake};

verus! {

/// One entry of a generated item's generic parameter or argument list.
#[derive(Debug, PartialEq)]
pub enum TypeArg {
    /// A lifetime, as declared (`'a: 'b`) or as used (`'a`).
    Lifetime(String),
    /// A type parameter declared with its attributes and bounds:
    /// (attributes, name, bounds).
    Bounded(String, String, String),
    /// A const parameter declared with its attributes and type:
    /// (attributes, name, type).
    Const(String, String, String),
    /// A parameter named without bounds.
    Param(String),
    /// The unset state of a field of this type.
    NoData(String),
    /// A concrete type.
    Concrete(String),
    /// A state parameter that resolves to this type: (name, type).
    OrDefault(String, String),
    /// The zero-size marker that owns this type parameter.
    Marker(String),
}

/// A lifetime parameter of the record.
pub struct LifetimeInput {
    /// The lifetime as used (`'a`).
    pub name: String,
    /// The lifetime as declared, with its bounds (`'a: 'b`).
    pub decl: String,
}

/// A type parameter of the record.
pub struct TypeParamInput {
    /// The parameter's attributes as source text; empty when there are none.
    pub attrs: String,
    pub ident: String,
    /// The bounds as source text; empty when there are none.
    pub bounds: String,
}

/// A const parameter of the record.
pub struct ConstParamInput {
    /// The parameter's attributes as source text; empty when there are none.
    pub attrs: String,
    pub ident: String,
    pub ty: String,
}

/// The record's own generics as the front end reads them.
pub struct GenericsInput {
    pub lifetimes: Vec<LifetimeInput>,
    pub types: Vec<TypeParamInput>,
    pub consts: Vec<ConstParamInput>,
    /// The predicates of the record's `where` clause, as source text.
    pub where_predicates: Vec<String>,
}

/// A type parameter of the record, with the builder's marker field for it.
pub struct Generic {
    pub param: TypeParamInput,
    pub field_type: TypeArg,
    pub field_name: String,
}

impl Generic {
    pub fn from(param: TypeParamInput) -> (r: Generic)
        ensures
            r.param == param,
            r.field_type == TypeArg::Marker(param.ident),
            r.field_name@ == "_generic_"@ + snake_of(param.ident@),
    {
        let field_type = TypeArg::Marker(param.ident.clone());
        let field_name = String::from_str("_generic_").concat(to_snake(param.ident.as_str()).as_str());
        Generic { param, field_type, field_name }
    }
}

/// A member of the generated builder struct, or of a constructor for it.
#[derive(Debug, PartialEq)]
pub struct Member {
    pub name: String,
    pub ty: TypeArg,
}

/// The record's own generics, split by kind.
pub struct Generics {
    pub lifetimes: Vec<LifetimeInput>,
    pub types: Vec<Generic>,
    pub consts: Vec<ConstParamInput>,
    pub where_predicates: Vec<String>,
}

pub open spec fn lifetime_decls(ls: Seq<LifetimeInput>) -> Seq<TypeArg> {
    ls.map_values(|l: LifetimeInput| TypeArg::Lifetime(l.decl))
}

pub open spec fn lifetime_uses(ls: Seq<LifetimeInput>) -> Seq<TypeArg> {
    ls.map_values(|l: LifetimeInput| TypeArg::Lifetime(l.name))
}

pub open spec fn type_decls(ts: Seq<Generic>) -> Seq<TypeArg> {
    ts.map_values(|t: Generic| TypeArg::Bounded(t.param.attrs, t.param.ident, t.param.bounds))
}

pub open spec fn type_uses(ts: Seq<Generic>) -> Seq<TypeArg> {
    ts.map_values(|t: Generic| TypeArg::Param(t.param.ident))
}

pub open spec fn const_decls(cs: Seq<ConstParamInput>) -> Seq<TypeArg> {
    cs.map_values(|c: ConstParamInput| TypeArg::Const(c.attrs, c.ident, c.ty))
}

pub open spec fn const_uses(cs: Seq<ConstParamInput>) -> Seq<TypeArg> {
    cs.map_values(|c: ConstParamInput| TypeArg::Param(c.ident))
}

impl Generics {
    /// Whether these are the generics read from `input`.
    pub open spec fn read_from(self, input: GenericsInput) -> bool {
        &&& self.lifetimes == input.lifetimes
        &&& self.consts == input.consts
        &&& self.where_predicates == input.where_predicates
        &&& self.types@.len() == input.types@.len()
        &&& forall|k: int|
            0 <= k < self.types@.len() ==> (#[trigger] self.types@[k]).param == input.types@[k]
                && self.types@[k].field_type == TypeArg::Marker(input.types@[k].ident)
                && self.types@[k].field_name@ == "_generic_"@ + snake_of(input.types@[k].ident@)
    }

    pub fn from(input: GenericsInput) -> (r: Generics)
        ensures
            r.read_from(input),
    {
        let GenericsInput { lifetimes, types, consts, where_predicates } = input;
        let ghost orig = types@;
        let mut rest = types;
        let mut out: Vec<Generic> = Vec::new();
        let n = rest.len();
        let mut k: usize = 0;
        while k < n
            invariant
                n == orig.len(),
                k <= n,
                rest@ == orig.skip(k as int),
                out@.len() == k,
                forall|j: int| 0 <= j < k ==> (#[trigger] out@[j]).param == orig[j]
                    && out@[j].field_type == TypeArg::Marker(orig[j].ident)
                    && out@[j].field_name@ == "_generic_"@ + snake_of(orig[j].ident@),
            decreases n - k,
        {
            let p = rest.remove(0);
            assert(orig.skip(k as int + 1) =~= orig.skip(k as int).skip(1));
            out.push(Generic::from(p));
            k = k + 1;
        }
        Generics { lifetimes, types: out, consts, where_predicates }
    }

    /// The marker members that own the record's type parameters.
    pub fn field_definitions(&self) -> (r: Vec<Member>)
        ensures
            r@.len() == self.types@.len(),
            forall|k: int| 0 <= k < r@.len() ==> (#[trigger] r@[k]).name == self.types@[k].field_name
                && r@[k].ty == self.types@[k].field_type,
    {
        let mut r: Vec<Member> = Vec::new();
        let mut k: usize = 0;
        while k < self.types.len()
            invariant
                k <= self.types@.len(),
                r@.len() == k,
                forall|j: int| 0 <= j < k ==> (#[trigger] r@[j]).name == self.types@[j].field_name
                    && r@[j].ty == self.types@[j].field_type,
            decreases self.types@.len() - k,
        {
            let t = &self.types[k];
            r.push(Member { name: t.field_name.clone(), ty: copy_arg(&t.field_type) });
            k = k + 1;
        }
        r
    }

    /// The names of the marker members, each initialised with an empty marker.
    pub fn default_constructors(&self) -> (r: Vec<String>)
        ensures
            r@.len() == self.types@.len(),
            forall|k: int| 0 <= k < r@.len() ==> #[trigger] r@[k] == self.types@[k].field_name,
    {
        let mut r: Vec<String> = Vec::new();
        let mut k: usize = 0;
        while k < self.types.len()
            invariant
                k <= self.types@.len(),
                r@.len() == k,
                forall|j: int| 0 <= j < k ==> #[trigger] r@[j] == self.types@[j].field_name,
            decreases self.types@.len() - k,
        {
            r.push(self.types[k].field_name.clone());
            k = k + 1;
        }
        r
    }

    /// The lifetimes as declared.
    pub fn lifetimes(&self) -> (r: Vec<TypeArg>)
        ensures
            r@ == lifetime_decls(self.lifetimes@),
    {
        let mut r: Vec<TypeArg> = Vec::new();
        let mut k: usize = 0;
        while k < self.lifetimes.len()
            invariant
                k <= self.lifetimes@.len(),
                r@ == lifetime_decls(self.lifetimes@.take(k as int)),
            decreases self.lifetimes@.len() - k,
        {
            r.push(TypeArg::Lifetime(self.lifetimes[k].decl.clone()));
            k = k + 1;
            assert(r@ =~= lifetime_decls(self.lifetimes@.take(k as int)));
        }
        assert(self.lifetimes@.take(k as int) =~= self.lifetimes@);
        r
    }

    /// The lifetimes as used.
    pub fn lifetime_names(&self) -> (r: Vec<TypeArg>)
        ensures
            r@ == lifetime_uses(self.lifetimes@),
    {
        let mut r: Vec<TypeArg> = Vec::new();
        let mut k: usize = 0;
        while k < self.lifetimes.len()
            invariant
                k <= self.lifetimes@.len(),
                r@ == lifetime_uses(self.lifetimes@.take(k as int)),
            decreases self.lifetimes@.len() - k,
        {
            r.push(TypeArg::Lifetime(self.lifetimes[k].name.clone()));
            k = k + 1;
            assert(r@ =~= lifetime_uses(self.lifetimes@.take(k as int)));
        }
        assert(self.lifetimes@.take(k as int) =~= self.lifetimes@);
        r
    }

    /// The type parameters as declared, with their bounds.
    pub fn types(&self) -> (r: Vec<TypeArg>)
        ensures
            r@ == type_decls(self.types@),
    {
        let mut r: Vec<TypeArg> = Vec::new();
        let mut k: usize = 0;
        while k < self.types.len()
            invariant
                k <= self.types@.len(),
                r@ == type_decls(self.types@.take(k as int)),
            decreases self.types@.len() - k,
        {
            let p = &self.types[k].param;
            r.push(TypeArg::Bounded(p.attrs.clone(), p.ident.clone(), p.bounds.clone()));
            k = k + 1;
            assert(r@ =~= type_decls(self.types@.take(k as int)));
        }
        assert(self.types@.take(k as int) =~= self.types@);
        r
    }

    /// The type parameters as used.
    pub fn type_names(&self) -> (r: Vec<TypeArg>)
        ensures
            r@ == type_uses(self.types@),
    {
        let mut r: Vec<TypeArg> = Vec::new();
        let mut k: usize = 0;
        while k < self.types.len()
            invariant
                k <= self.types@.len(),
                r@ == type_uses(self.types@.take(k as int)),
            decreases self.types@.len() - k,
        {
            r.push(TypeArg::Param(self.types[k].param.ident.clone()));
            k = k + 1;
            assert(r@ =~= type_uses(self.types@.take(k as int)));
        }
        assert(self.types@.take(k as int) =~= self.types@);
        r
    }

    /// The const parameters as declared, with their types.
    pub fn consts(&self) -> (r: Vec<TypeArg>)
        ensures
            r@ == const_decls(self.consts@),
    {
        let mut r: Vec<TypeArg> = Vec::new();
        let mut k: usize = 0;
        while k < self.consts.len()
            invariant
                k <= self.consts@.len(),
                r@ == const_decls(self.consts@.take(k as int)),
            decreases self.consts@.len() - k,
        {
            let c = &self.consts[k];
            r.push(TypeArg::Const(c.attrs.clone(), c.ident.clone(), c.ty.clone()));
            k = k + 1;
            assert(r@ =~= const_decls(self.consts@.take(k as int)));
        }
        assert(self.consts@.take(k as int) =~= self.consts@);
        r
    }

    /// The const parameters as used.
    pub fn const_names(&self) -> (r: Vec<TypeArg>)
        ensures
            r@ == const_uses(self.consts@),
    {
        let mut r: Vec<TypeArg> = Vec::new();
        let mut k: usize = 0;
        while k < self.consts.len()
            invariant
                k <= self.consts@.len(),
                r@ == const_uses(self.consts@.take(k as int)),
            decreases self.consts@.len() - k,
        {
            r.push(TypeArg::Param(self.consts[k].ident.clone()));
            k = k + 1;
            assert(r@ =~= const_uses(self.consts@.take(k as int)));
        }
        assert(self.consts@.take(k as int) =~= self.consts@);
        r
    }

    /// The parameter list of a generated item: lifetimes, type parameters
    /// with their bounds, then `other_types`, then const parameters.
    pub fn impl_generics(&self, other_types: Vec<TypeArg>) -> (r: Vec<TypeArg>)
        ensures
            r@ == lifetime_decls(self.lifetimes@) + type_decls(self.types@) + other_types@ + const_decls(
                self.consts@,
            ),
    {
        let mut r = self.lifetimes();
        let mut t = self.types();
        let mut o = other_types;
        let mut c = self.consts();
        r.append(&mut t);
        r.append(&mut o);
        r.append(&mut c);
        r
    }

    /// The argument list that passes the same parameters on, in the same
    /// order as `impl_generics`.
    pub fn ty_generics(&self, other_types: Vec<TypeArg>) -> (r: Vec<TypeArg>)
        ensures
            r@ == lifetime_uses(self.lifetimes@) + type_uses(self.types@) + other_types@ + const_uses(
                self.consts@,
            ),
    {
        let mut r = self.lifetime_names();
        let mut t = self.type_names();
        let mut o = other_types;
        let mut c = self.const_names();
        r.append(&mut t);
        r.append(&mut o);
        r.append(&mut c);
        r
    }
}

/// A copy of a generic entry.
pub fn copy_arg(a: &TypeArg) -> (r: TypeArg)
    ensures
        r == *a,
{
    match a {
        TypeArg::Lifetime(s) => TypeArg::Lifetime(s.clone()),
        TypeArg::Bounded(a, s, b) => TypeArg::Bounded(a.clone(), s.clone(), b.clone()),
        TypeArg::Const(a, s, t) => TypeArg::Const(a.clone(), s.clone(), t.clone()),
        TypeArg::Param(s) => TypeArg::Param(s.clone()),
        TypeArg::NoData(s) => TypeArg::NoData(s.clone()),
        TypeArg::Concrete(s) => TypeArg::Concrete(s.clone()),
        TypeArg::OrDefault(s, t) => TypeArg::OrDefault(s.clone(), t.clone()),
        TypeArg::Marker(s) => TypeArg::Marker(s.clone()),
    }
}

} // verus!
