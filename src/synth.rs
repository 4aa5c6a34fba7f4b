use vstd::prelude::*;
use vstd::string::StringExecFns;

use crate::error::Error;
use crate::fields::{
    all_args, except_args, fields_read, form_args, Field, Fields, FieldsInput, Form, NamedField, UnnamedField,
};
use crate::generics::{
    const_decls, const_uses, lifetime_decls, lifetime_uses, type_decls, type_uses, Generic, Generics,
    GenericsInput, Member, TypeArg,
};

verus! {

/// The body of the item a builder is asked for.
pub enum DataInput {
    Struct(FieldsInput),
    Enum,
    Union,
}

/// The item a builder is asked for, as the front end reads it.
pub struct DeriveInput {
    pub vis: String,
    pub ident: String,
    pub generics: GenericsInput,
    pub data: DataInput,
}

/// A record together with the names its builder is generated under.
pub struct StructAttrs {
    pub vis: String,
    pub ident: String,
    pub builder_ident: String,
    /// The type parameter of the builder's continuation.
    pub callback: String,
    pub generics: Generics,
    pub fields: Fields,
}

/// The `where` clause of every generated impl: the record's own predicates,
/// and the continuation accepting the record.
pub struct WhereClause {
    pub predicates: Vec<String>,
    pub callback: String,
    pub built_type: String,
    pub built_args: Vec<TypeArg>,
}

/// The impl that makes the record buildable with a continuation.
pub struct CallbackImplPlan {
    pub impl_params: Vec<TypeArg>,
    pub built_args: Vec<TypeArg>,
    /// The arguments of the builder it starts: every field unset.
    pub builder_args: Vec<TypeArg>,
}

/// The constructor of a fresh builder.
pub struct ConstructorPlan {
    pub impl_params: Vec<TypeArg>,
    pub builder_args: Vec<TypeArg>,
    /// The marker members, each initialised empty.
    pub marker_inits: Vec<String>,
    /// The storage members, each initialised to the unset state.
    pub unset_inits: Vec<String>,
}

/// The setter of one field, and the entry into a nested builder for it.
pub struct SetterPlan {
    pub field_idx: usize,
    pub setter: String,
    pub builder_fn: String,
    pub ty: String,
    /// The parameters of the impl: the state of every other field stays free.
    pub impl_params: Vec<TypeArg>,
    /// The builder the setter consumes: this field unset.
    pub in_args: Vec<TypeArg>,
    /// The builder the setter returns: this field set.
    pub out_args: Vec<TypeArg>,
    /// The continuation that resumes the parent builder with this field set.
    pub callback_ident: String,
    pub callback_args: Vec<TypeArg>,
    /// The storage members of the returned builder, in declaration order.
    pub inits: Vec<Init>,
}

/// How a setter fills one storage member of the builder it returns.
pub struct Init {
    pub member: String,
    /// Whether the member takes the setter's argument; otherwise it moves
    /// over from the builder the setter consumes.
    pub from_value: bool,
}

/// How finishing fills one field of the record.
pub struct FieldValue {
    /// The record's field name; `None` for a positional field.
    pub name: Option<String>,
    /// The builder member the value comes from.
    pub member: String,
    /// Whether the member's state is resolved through its default.
    pub or_default: bool,
}

/// The finishing operation.
pub struct BuildPlan {
    pub impl_params: Vec<TypeArg>,
    /// The builder it consumes: every field in a state that resolves.
    pub args: Vec<TypeArg>,
    pub values: Vec<FieldValue>,
}

/// A copy of a list of texts.
fn copy_texts(v: &Vec<String>) -> (r: Vec<String>)
    ensures
        r@ == v@,
{
    let mut r: Vec<String> = Vec::new();
    let mut k: usize = 0;
    while k < v.len()
        invariant
            k <= v@.len(),
            r@ == v@.take(k as int),
        decreases v@.len() - k,
    {
        r.push(v[k].clone());
        k = k + 1;
        assert(r@ =~= v@.take(k as int));
    }
    assert(v@.take(k as int) =~= v@);
    r
}

impl StructAttrs {
    /// Whether these are the names a builder for `input` is generated under.
    pub open spec fn named_for(self, input: DeriveInput) -> bool {
        &&& self.vis == input.vis
        &&& self.ident == input.ident
        &&& self.builder_ident@ == input.ident@ + "Builder"@
        &&& self.callback@ == "__Callback"@
        &&& self.generics.read_from(input.generics)
    }

    /// Reads the item a builder is asked for; only a record has one.
    pub fn try_from(input: DeriveInput) -> (r: Result<StructAttrs, Error>)
        ensures
            match input.data {
                DataInput::Struct(f) => {
                    &&& r is Ok ==> fields_read(f, Ok(r->Ok_0.fields)) && r->Ok_0.named_for(input)
                    &&& r is Err ==> fields_read(f, Err(r->Err_0))
                },
                DataInput::Enum => r is Err && r->Err_0 == Error::InvalidShape("struct", "enum"),
                DataInput::Union => r is Err && r->Err_0 == Error::InvalidShape("struct", "union"),
            },
    {
        let ghost orig = input;
        let DeriveInput { vis, ident, generics, data } = input;
        match data {
            DataInput::Struct(f) => {
                let fields = Fields::try_from(&f);
                match fields {
                    Ok(fields) => {
                        let builder_ident = ident.clone().concat("Builder");
                        Ok(
                            StructAttrs {
                                vis,
                                ident,
                                builder_ident,
                                callback: String::from_str("__Callback"),
                                generics: Generics::from(generics),
                                fields,
                            },
                        )
                    },
                    Err(e) => Err(e),
                }
            },
            DataInput::Enum => Err(Error::InvalidShape("struct", "enum")),
            DataInput::Union => Err(Error::InvalidShape("struct", "union")),
        }
    }

    /// The parameter list of a generated impl, `other` standing after the
    /// continuation's parameter.
    pub open spec fn impl_params(self, other: Seq<TypeArg>) -> Seq<TypeArg> {
        lifetime_decls(self.generics.lifetimes@) + type_decls(self.generics.types@) + seq![
            TypeArg::Param(self.callback),
        ] + other + const_decls(self.generics.consts@)
    }

    /// The argument list of the builder type, `other` standing after the
    /// continuation's parameter.
    pub open spec fn ty_args(self, other: Seq<TypeArg>) -> Seq<TypeArg> {
        lifetime_uses(self.generics.lifetimes@) + type_uses(self.generics.types@) + seq![
            TypeArg::Param(self.callback),
        ] + other + const_uses(self.generics.consts@)
    }

    /// The parameters of the builder struct itself.
    pub fn builder_generics(&self) -> (r: Vec<TypeArg>)
        ensures
            r@ == self.impl_params(all_args(self.fields.all(), Form::Param)),
    {
        self.impl_generics(self.fields.generics())
    }

    pub fn impl_generics(&self, other_types: Vec<TypeArg>) -> (r: Vec<TypeArg>)
        ensures
            r@ == self.impl_params(other_types@),
    {
        let mut o: Vec<TypeArg> = Vec::new();
        o.push(TypeArg::Param(self.callback.clone()));
        let mut other_types = other_types;
        let ghost other = other_types@;
        o.append(&mut other_types);
        let r = self.generics.impl_generics(o);
        assert(r@ =~= self.impl_params(other));
        r
    }

    pub fn ty_generics(&self, other_types: Vec<TypeArg>) -> (r: Vec<TypeArg>)
        ensures
            r@ == self.ty_args(other_types@),
    {
        let mut o: Vec<TypeArg> = Vec::new();
        o.push(TypeArg::Param(self.callback.clone()));
        let mut other_types = other_types;
        let ghost other = other_types@;
        o.append(&mut other_types);
        let r = self.generics.ty_generics(o);
        assert(r@ =~= self.ty_args(other));
        r
    }

    pub fn where_clause(&self) -> (r: WhereClause)
        ensures
            r.predicates@ == self.generics.where_predicates@,
            r.callback == self.callback,
            r.built_type == self.ident,
            r.built_args@ == lifetime_uses(self.generics.lifetimes@) + type_uses(self.generics.types@)
                + const_uses(self.generics.consts@),
    {
        let built_args = self.generics.ty_generics(Vec::new());
        assert(built_args@ =~= lifetime_uses(self.generics.lifetimes@) + type_uses(self.generics.types@)
            + const_uses(self.generics.consts@));
        WhereClause {
            predicates: copy_texts(&self.generics.where_predicates),
            callback: self.callback.clone(),
            built_type: self.ident.clone(),
            built_args,
        }
    }

    pub fn builder_with_callback(&self) -> (r: CallbackImplPlan)
        ensures
            r.impl_params@ == self.impl_params(seq![]),
            r.built_args@ == lifetime_uses(self.generics.lifetimes@) + type_uses(self.generics.types@)
                + const_uses(self.generics.consts@),
            r.builder_args@ == self.ty_args(all_args(self.fields.all(), Form::Unset)),
    {
        let built_args = self.generics.ty_generics(Vec::new());
        assert(built_args@ =~= lifetime_uses(self.generics.lifetimes@) + type_uses(self.generics.types@)
            + const_uses(self.generics.consts@));
        let impl_params = self.impl_generics(Vec::new());
        assert(Seq::<TypeArg>::empty() =~= seq![]);
        CallbackImplPlan { impl_params, built_args, builder_args: self.ty_generics(self.fields.no_data_generics()) }
    }

    pub fn default_constructor(&self) -> (r: ConstructorPlan)
        ensures
            r.impl_params@ == self.impl_params(seq![]),
            r.builder_args@ == self.ty_args(all_args(self.fields.all(), Form::Unset)),
            r.marker_inits@ == self.generics.types@.map_values(|t: Generic| t.field_name),
            r.unset_inits@ == self.fields.all().map_values(|f: Field| f.field_ident),
    {
        let impl_params = self.impl_generics(Vec::new());
        assert(Seq::<TypeArg>::empty() =~= seq![]);
        let marker_inits = self.generics.default_constructors();
        let unset_inits = self.fields.default_constructors();
        assert(marker_inits@ =~= self.generics.types@.map_values(|t: Generic| t.field_name));
        assert(unset_inits@ =~= self.fields.all().map_values(|f: Field| f.field_ident));
        ConstructorPlan {
            impl_params,
            builder_args: self.ty_generics(self.fields.no_data_generics()),
            marker_inits,
            unset_inits,
        }
    }

    /// Whether `p` is the setter of field `i`.
    pub open spec fn is_setter_plan(self, i: int, p: SetterPlan) -> bool {
        let f = self.fields.all()[i];
        let fs = self.fields.all();
        &&& p.field_idx == i
        &&& p.setter == f.setter
        &&& p.builder_fn == f.builder
        &&& p.ty == f.ty
        &&& p.impl_params@ == self.impl_params(except_args(fs, i, Form::Param, Form::Omit))
        &&& p.in_args@ == self.ty_args(except_args(fs, i, Form::Param, Form::Unset))
        &&& p.out_args@ == self.ty_args(except_args(fs, i, Form::Param, Form::Declared))
        &&& p.callback_ident@ == "__"@ + self.builder_ident@ + f.generic_ident@
        &&& p.callback_args@ == self.ty_args(except_args(fs, i, Form::Param, Form::Omit))
        &&& p.inits@.len() == fs.len()
        &&& forall|j: int|
            0 <= j < fs.len() ==> (#[trigger] p.inits@[j]).member == fs[j].field_ident && p.inits@[j].from_value
                == (j == i)
    }

    /// The storage members of a builder that sets field `i`.
    pub fn setter_inits(&self, i: usize) -> (r: Vec<Init>)
        ensures
            r@.len() == self.fields.all().len(),
            forall|j: int|
                0 <= j < r@.len() ==> (#[trigger] r@[j]).member == self.fields.all()[j].field_ident
                    && r@[j].from_value == (j == i),
    {
        let mut r: Vec<Init> = Vec::new();
        let n = self.fields.len();
        let mut k: usize = 0;
        while k < n
            invariant
                n == self.fields.all().len(),
                k <= n,
                r@.len() == k,
                forall|j: int|
                    0 <= j < k ==> (#[trigger] r@[j]).member == self.fields.all()[j].field_ident
                        && r@[j].from_value == (j == i),
            decreases n - k,
        {
            r.push(Init { member: self.fields.field(k).field_ident.clone(), from_value: k == i });
            k = k + 1;
        }
        r
    }

    /// Whether `m` are the members of the builder struct: a marker per type
    /// parameter, the continuation, then a storage member per field.
    pub open spec fn is_struct_members(self, m: Seq<Member>) -> bool {
        let t = self.generics.types@.len() as int;
        let fs = self.fields.all();
        &&& m.len() == t + 1 + fs.len()
        &&& forall|k: int|
            0 <= k < t ==> (#[trigger] m[k]).name == self.generics.types@[k].field_name && m[k].ty
                == self.generics.types@[k].field_type
        &&& m[t].name@ == "callback"@
        &&& m[t].ty == TypeArg::Param(self.callback)
        &&& forall|k: int|
            0 <= k < fs.len() ==> (#[trigger] m[t + 1 + k]).name == fs[k].field_ident && m[t + 1 + k].ty
                == TypeArg::Param(fs[k].generic_ident)
    }

    /// The members of the builder struct, in declaration order.
    pub fn struct_members(&self) -> (r: Vec<Member>)
        ensures
            self.is_struct_members(r@),
    {
        let mut r = self.generics.field_definitions();
        let ghost t = r@;
        r.push(Member { name: String::from_str("callback"), ty: TypeArg::Param(self.callback.clone()) });
        let mut f = self.fields.field_definitions();
        let ghost fv = f@;
        r.append(&mut f);
        let ghost tl = self.generics.types@.len() as int;
        assert forall|k: int| 0 <= k < self.fields.all().len() implies (#[trigger] r@[tl + 1 + k]).name
            == self.fields.all()[k].field_ident && r@[tl + 1 + k].ty == TypeArg::Param(
            self.fields.all()[k].generic_ident,
        ) by {
            assert(r@[tl + 1 + k] == fv[k]);
        }
        assert forall|k: int| 0 <= k < tl implies (#[trigger] r@[k]).name == self.generics.types@[k].field_name
            && r@[k].ty == self.generics.types@[k].field_type by {
            assert(r@[k] == t[k]);
        }
        r
    }

    pub fn setter(&self, i: usize) -> (r: SetterPlan)
        requires
            i < self.fields.all().len(),
        ensures
            self.is_setter_plan(i as int, r),
    {
        let f = self.fields.field(i);
        let callback_ident = String::from_str("__").concat(self.builder_ident.as_str()).concat(
            f.generic_ident.as_str(),
        );
        SetterPlan {
            field_idx: i,
            setter: f.setter.clone(),
            builder_fn: f.builder.clone(),
            ty: f.ty.clone(),
            impl_params: self.impl_generics(self.fields.fields_except(i, Form::Param, Form::Omit)),
            in_args: self.ty_generics(self.fields.fields_except(i, Form::Param, Form::Unset)),
            out_args: self.ty_generics(self.fields.fields_except(i, Form::Param, Form::Declared)),
            callback_ident,
            callback_args: self.ty_generics(self.fields.fields_except(i, Form::Param, Form::Omit)),
            inits: self.setter_inits(i),
        }
    }

    /// The setters, one per field in declaration order.
    pub fn setters(&self) -> (r: Vec<SetterPlan>)
        ensures
            r@.len() == self.fields.all().len(),
            forall|k: int| 0 <= k < r@.len() ==> self.is_setter_plan(k, #[trigger] r@[k]),
    {
        let mut r: Vec<SetterPlan> = Vec::new();
        let n = self.fields.len();
        let mut k: usize = 0;
        while k < n
            invariant
                n == self.fields.all().len(),
                k <= n,
                r@.len() == k,
                forall|j: int| 0 <= j < k ==> self.is_setter_plan(j, #[trigger] r@[j]),
            decreases n - k,
        {
            r.push(self.setter(k));
            k = k + 1;
        }
        r
    }

    /// The record's field names, `None` for each positional field.
    pub open spec fn field_names(self) -> Seq<Option<String>> {
        match self.fields {
            Fields::Named(v) => v@.map_values(|f: NamedField| Some(f.ident)),
            Fields::Unnamed(v) => v@.map_values(|f: UnnamedField| None::<String>),
            Fields::Unit => Seq::empty(),
        }
    }

    fn field_name(&self, i: usize) -> (r: Option<String>)
        requires
            i < self.fields.all().len(),
        ensures
            r == self.field_names()[i as int],
    {
        match &self.fields {
            Fields::Named(v) => Some(v[i].ident.clone()),
            Fields::Unnamed(_) => None,
            Fields::Unit => unreached(),
        }
    }

    /// The finishing operation: every field moves into the record, through
    /// its default where it has one.
    pub fn build(&self) -> (r: BuildPlan)
        ensures
            r.impl_params@ == self.impl_params(all_args(self.fields.all(), Form::Resolvable)),
            r.args@ == self.ty_args(all_args(self.fields.all(), Form::Completed)),
            r.values@.len() == self.fields.all().len(),
            forall|k: int|
                0 <= k < r.values@.len() ==> (#[trigger] r.values@[k]).name == self.field_names()[k]
                    && r.values@[k].member == self.fields.all()[k].field_ident
                    && r.values@[k].or_default == self.fields.all()[k].has_default,
    {
        let n = self.fields.len();
        let mut values: Vec<FieldValue> = Vec::new();
        let mut k: usize = 0;
        while k < n
            invariant
                n == self.fields.all().len(),
                n == self.field_names().len(),
                k <= n,
                values@.len() == k,
                forall|j: int|
                    0 <= j < k ==> (#[trigger] values@[j]).name == self.field_names()[j]
                        && values@[j].member == self.fields.all()[j].field_ident
                        && values@[j].or_default == self.fields.all()[j].has_default,
            decreases n - k,
        {
            let f = self.fields.field(k);
            values.push(FieldValue { name: self.field_name(k), member: f.field_ident.clone(), or_default: f.has_default });
            k = k + 1;
        }
        BuildPlan {
            impl_params: self.impl_generics(self.fields.fields_except(n, Form::Resolvable, Form::Resolvable)),
            args: self.ty_generics(self.fields.completed_generics()),
            values,
        }
    }
}

/// Whether a form writes exactly one entry for every field.
pub open spec fn single(form: Form) -> bool {
    form is Param || form is Unset || form is Declared || form is Completed
}

proof fn lemma_except_args_shape(fs: Seq<Field>, i: int, usual: Form, exception: Form)
    requires
        single(usual),
        single(exception),
    ensures
        except_args(fs, i, usual, exception).len() == fs.len(),
        forall|k: int|
            0 <= k < fs.len() ==> #[trigger] except_args(fs, i, usual, exception)[k] == form_args(
                if k == i {
                    exception
                } else {
                    usual
                },
                fs[k],
            )[0],
    decreases fs.len(),
{
    if fs.len() > 0 {
        lemma_except_args_shape(fs.drop_last(), i, usual, exception);
        assert forall|k: int| 0 <= k < fs.len() implies #[trigger] except_args(fs, i, usual, exception)[k]
            == form_args(
            if k == i {
                exception
            } else {
                usual
            },
            fs[k],
        )[0] by {
            if k < fs.len() - 1 {
                assert(fs.drop_last()[k] == fs[k]);
            }
        }
    }
}

/// A setter is a single type-state transition: the builder it returns has
/// the same arguments as the one it consumes, in the same order, except the
/// state of its own field, which goes from unset to set.
pub proof fn lemma_setter_flips_one_state(attrs: StructAttrs, i: int, p: SetterPlan)
    requires
        0 <= i < attrs.fields.all().len(),
        attrs.is_setter_plan(i, p),
    ensures
        ({
            let pos = attrs.generics.lifetimes@.len() + attrs.generics.types@.len() + 1 + i;
            let f = attrs.fields.all()[i];
            &&& p.in_args@.len() == p.out_args@.len()
            &&& p.in_args@.len() == attrs.impl_params(all_args(attrs.fields.all(), Form::Param)).len()
            &&& p.in_args@[pos] == TypeArg::NoData(f.ty)
            &&& p.out_args@[pos] == TypeArg::Concrete(f.ty)
            &&& forall|k: int| 0 <= k < p.in_args@.len() && k != pos ==> #[trigger] p.in_args@[k] == p.out_args@[k]
        }),
{
    let fs = attrs.fields.all();
    lemma_except_args_shape(fs, i, Form::Param, Form::Unset);
    lemma_except_args_shape(fs, i, Form::Param, Form::Declared);
    lemma_except_args_shape(fs, fs.len() as int, Form::Param, Form::Param);
    let a = lifetime_uses(attrs.generics.lifetimes@);
    let b = type_uses(attrs.generics.types@);
    let c = const_uses(attrs.generics.consts@);
    let x = except_args(fs, i, Form::Param, Form::Unset);
    let y = except_args(fs, i, Form::Param, Form::Declared);
    let head = a + b + seq![TypeArg::Param(attrs.callback)];
    assert(p.in_args@ == head + x + c);
    assert(p.out_args@ == head + y + c);
    let pos = a.len() + b.len() + 1 + i;
    assert forall|k: int| 0 <= k < p.in_args@.len() && k != pos implies #[trigger] p.in_args@[k] == p.out_args@[k] by {
        if k < head.len() {
        } else if k < head.len() + fs.len() {
            assert(p.in_args@[k] == x[k - head.len()]);
            assert(p.out_args@[k] == y[k - head.len()]);
        } else {
            assert(p.in_args@[k] == c[k - head.len() - fs.len()]);
            assert(p.out_args@[k] == c[k - head.len() - fs.len()]);
        }
    }
    assert(p.in_args@[pos] == x[i]);
    assert(p.out_args@[pos] == y[i]);
}

/// The state argument of field `f` in a builder: its declared type once set,
/// its unset marker before.
pub open spec fn state_arg(f: Field, set: bool) -> TypeArg {
    if set {
        TypeArg::Concrete(f.ty)
    } else {
        TypeArg::NoData(f.ty)
    }
}

/// Whether an entry of an impl's argument list admits the state argument
/// `arg` of field `f`: a free state parameter admits either state of the
/// field (within the finishing impl it is bounded to resolve to the field's
/// type, which both states do when the field has a default), any other entry
/// admits only itself.
pub open spec fn admits(pattern: TypeArg, f: Field, arg: TypeArg) -> bool {
    match pattern {
        TypeArg::Param(_) => arg == TypeArg::NoData(f.ty) || arg == TypeArg::Concrete(f.ty),
        _ => pattern == arg,
    }
}

/// Whether the argument list `pattern` admits the builder whose fields are
/// set as `bits` says.
pub open spec fn admits_state(attrs: StructAttrs, pattern: Seq<TypeArg>, bits: Seq<bool>) -> bool {
    let base = attrs.generics.lifetimes@.len() + attrs.generics.types@.len() + 1;
    forall|k: int|
        0 <= k < attrs.fields.all().len() ==> admits(
            #[trigger] pattern[base + k],
            attrs.fields.all()[k],
            state_arg(attrs.fields.all()[k], bits[k]),
        )
}

proof fn lemma_ty_args_index(attrs: StructAttrs, x: Seq<TypeArg>, k: int)
    requires
        x.len() == attrs.fields.all().len(),
        0 <= k < x.len(),
    ensures
        attrs.ty_args(x)[attrs.generics.lifetimes@.len() + attrs.generics.types@.len() + 1 + k] == x[k],
{
    let head = lifetime_uses(attrs.generics.lifetimes@) + type_uses(attrs.generics.types@) + seq![
        TypeArg::Param(attrs.callback),
    ];
    assert(attrs.ty_args(x) == head + x + const_uses(attrs.generics.consts@));
    assert(head.len() == attrs.generics.lifetimes@.len() + attrs.generics.types@.len() + 1);
}

/// Finishing applies exactly when every field without a default is set: a
/// builder with a required field unset has no finishing operation, and a
/// field with a default may be left unset.
pub proof fn lemma_finish_needs_required_fields(attrs: StructAttrs, b: BuildPlan, bits: Seq<bool>)
    requires
        bits.len() == attrs.fields.all().len(),
        b.args@ == attrs.ty_args(all_args(attrs.fields.all(), Form::Completed)),
    ensures
        admits_state(attrs, b.args@, bits) <==> forall|k: int|
            0 <= k < bits.len() ==> #[trigger] bits[k] || attrs.fields.all()[k].has_default,
{
    let fs = attrs.fields.all();
    let base = attrs.generics.lifetimes@.len() + attrs.generics.types@.len() + 1;
    lemma_except_args_shape(fs, fs.len() as int, Form::Completed, Form::Completed);
    let x = all_args(fs, Form::Completed);
    assert forall|k: int| 0 <= k < fs.len() implies #[trigger] b.args@[base + k] == form_args(
        Form::Completed,
        fs[k],
    )[0] by {
        lemma_ty_args_index(attrs, x, k);
    }
    if admits_state(attrs, b.args@, bits) {
        assert forall|k: int| 0 <= k < bits.len() implies #[trigger] bits[k] || fs[k].has_default by {
            assert(admits(b.args@[base + k], fs[k], state_arg(fs[k], bits[k])));
        }
    }
}

/// A setter applies exactly while its field is unset, whatever the state of
/// the other fields: setting a field twice has no setter.
pub proof fn lemma_setter_needs_unset_field(attrs: StructAttrs, i: int, p: SetterPlan, bits: Seq<bool>)
    requires
        0 <= i < attrs.fields.all().len(),
        bits.len() == attrs.fields.all().len(),
        attrs.is_setter_plan(i, p),
    ensures
        admits_state(attrs, p.in_args@, bits) <==> !bits[i],
{
    let fs = attrs.fields.all();
    let base = attrs.generics.lifetimes@.len() + attrs.generics.types@.len() + 1;
    lemma_except_args_shape(fs, i, Form::Param, Form::Unset);
    let x = except_args(fs, i, Form::Param, Form::Unset);
    assert forall|k: int| 0 <= k < fs.len() implies #[trigger] p.in_args@[base + k] == x[k] by {
        lemma_ty_args_index(attrs, x, k);
    }
    if admits_state(attrs, p.in_args@, bits) {
        assert(admits(p.in_args@[base + i], fs[i], state_arg(fs[i], bits[i])));
    }
    if !bits[i] {
        assert forall|k: int| 0 <= k < fs.len() implies admits(
            #[trigger] p.in_args@[base + k],
            fs[k],
            state_arg(fs[k], bits[k]),
        ) by {
            assert(p.in_args@[base + k] == x[k]);
        }
    }
}

} // verus!
