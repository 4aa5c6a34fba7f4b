use convert_case::{Case, Casing};
use vstd::prelude::*;
use vstd::string::StringExecFns;

use crate::error::Error;
use crate::generics::{Member, TypeArg};

verus! {

/// One field of a record as the front end reads it.
pub struct FieldInput {
    /// The field's name; `None` for a positional field.
    pub ident: Option<String>,
    /// The field's declared type, as source text.
    pub ty: String,
    /// Whether the field falls back to its type's default when left unset.
    pub has_default: bool,
}

/// The fields of a record as the front end reads them.
pub enum FieldsInput {
    Named(Vec<FieldInput>),
    Unnamed(Vec<FieldInput>),
    Unit,
}

/// The snake-case form of an identifier.
pub uninterp spec fn snake_of(s: Seq<char>) -> Seq<char>;

/// The upper-camel-case form of an identifier.
pub uninterp spec fn upper_camel_of(s: Seq<char>) -> Seq<char>;

/// Relies on convert_case's `to_case(Case::Snake)`: the result depends on the
/// text alone.
#[verifier::external_body]
pub(crate) fn to_snake(s: &str) -> (r: String)
    ensures
        r@ == snake_of(s@),
{
    s.to_case(Case::Snake)
}

/// Relies on convert_case's `to_case(Case::UpperCamel)`: the result depends
/// on the text alone.
#[verifier::external_body]
fn to_upper_camel(s: &str) -> (r: String)
    ensures
        r@ == upper_camel_of(s@),
{
    s.to_case(Case::UpperCamel)
}

pub open spec fn digit_char(d: nat) -> char {
    if d == 0 {
        '0'
    } else if d == 1 {
        '1'
    } else if d == 2 {
        '2'
    } else if d == 3 {
        '3'
    } else if d == 4 {
        '4'
    } else if d == 5 {
        '5'
    } else if d == 6 {
        '6'
    } else if d == 7 {
        '7'
    } else if d == 8 {
        '8'
    } else {
        '9'
    }
}

/// The decimal text of `n`, without leading zeros.
pub open spec fn decimal_text(n: nat) -> Seq<char>
    decreases n,
{
    if n < 10 {
        seq![digit_char(n)]
    } else {
        decimal_text(n / 10).push(digit_char(n % 10))
    }
}

/// The text of one decimal digit.
fn digit_text(d: usize) -> (r: &'static str)
    requires
        d < 10,
    ensures
        r@ == seq![digit_char(d as nat)],
{
    if d == 0 {
        proof {
            reveal_strlit("0");
        }
        "0"
    } else if d == 1 {
        proof {
            reveal_strlit("1");
        }
        "1"
    } else if d == 2 {
        proof {
            reveal_strlit("2");
        }
        "2"
    } else if d == 3 {
        proof {
            reveal_strlit("3");
        }
        "3"
    } else if d == 4 {
        proof {
            reveal_strlit("4");
        }
        "4"
    } else if d == 5 {
        proof {
            reveal_strlit("5");
        }
        "5"
    } else if d == 6 {
        proof {
            reveal_strlit("6");
        }
        "6"
    } else if d == 7 {
        proof {
            reveal_strlit("7");
        }
        "7"
    } else if d == 8 {
        proof {
            reveal_strlit("8");
        }
        "8"
    } else {
        proof {
            reveal_strlit("9");
        }
        "9"
    }
}

/// The decimal text of `n`, without leading zeros.
pub fn index_text(n: usize) -> (r: String)
    ensures
        r@ == decimal_text(n as nat),
    decreases n,
{
    if n < 10 {
        String::from_str(digit_text(n))
    } else {
        index_text(n / 10).concat(digit_text(n % 10))
    }
}

/// The identifiers derived for one field, and its declared type.
pub struct Field {
    /// The builder's storage slot for the field.
    pub field_ident: String,
    /// The setter.
    pub setter: String,
    /// The entry into a nested builder for the field.
    pub builder: String,
    /// The type parameter that tracks the field's state.
    pub generic_ident: String,
    pub ty: String,
    pub has_default: bool,
}

impl Field {
    /// Whether these are the identifiers derived from `suffix` (the field's
    /// name or position) for the field `input`.
    pub open spec fn derived(self, suffix: Seq<char>, input: FieldInput) -> bool {
        &&& self.field_ident@ == "field_"@ + snake_of(suffix)
        &&& self.setter@ == "set_"@ + snake_of(suffix)
        &&& self.builder@ == "build_"@ + snake_of(suffix)
        &&& self.generic_ident@ == "__Field"@ + upper_camel_of(suffix)
        &&& self.ty == input.ty
        &&& self.has_default == input.has_default
    }

    pub fn new(suffix: &str, input: &FieldInput) -> (r: Field)
        ensures
            r.derived(suffix@, *input),
    {
        let snake = to_snake(suffix);
        let camel = to_upper_camel(suffix);
        Field {
            field_ident: String::from_str("field_").concat(snake.as_str()),
            setter: String::from_str("set_").concat(snake.as_str()),
            builder: String::from_str("build_").concat(snake.as_str()),
            generic_ident: String::from_str("__Field").concat(camel.as_str()),
            ty: input.ty.clone(),
            has_default: input.has_default,
        }
    }

    /// A copy of this field.
    pub fn duplicate(&self) -> (r: Field)
        ensures
            r == *self,
    {
        Field {
            field_ident: self.field_ident.clone(),
            setter: self.setter.clone(),
            builder: self.builder.clone(),
            generic_ident: self.generic_ident.clone(),
            ty: self.ty.clone(),
            has_default: self.has_default,
        }
    }
}

/// A field with a name.
pub struct NamedField {
    pub ident: String,
    pub field: Field,
}

impl NamedField {
    pub fn try_from(input: &FieldInput) -> (r: Result<NamedField, Error>)
        ensures
            input.ident is Some <==> r is Ok,
            r is Ok ==> r->Ok_0.ident == input.ident->Some_0 && r->Ok_0.field.derived(
                input.ident->Some_0@,
                *input,
            ),
            r is Err ==> r->Err_0 is MissingIdent,
    {
        match &input.ident {
            Some(ident) => Ok(NamedField { ident: ident.clone(), field: Field::new(ident.as_str(), input) }),
            None => Err(Error::MissingIdent),
        }
    }
}

/// A field known by its position.
pub struct UnnamedField {
    pub idx: usize,
    pub field: Field,
}

impl UnnamedField {
    pub fn try_from(idx: usize, input: &FieldInput) -> (r: Result<UnnamedField, Error>)
        ensures
            input.ident is None <==> r is Ok,
            r is Ok ==> r->Ok_0.idx == idx && r->Ok_0.field.derived(decimal_text(idx as nat), *input),
            r is Err ==> r->Err_0 is UnexpectedIdent,
    {
        if input.ident.is_some() {
            return Err(Error::UnexpectedIdent);
        }
        let suffix = index_text(idx);
        Ok(UnnamedField { idx, field: Field::new(suffix.as_str(), input) })
    }
}

/// Whether a field contradicts the kind of its list: a named field without a
/// name, or a positional field with one.
pub open spec fn malformed(f: FieldInput, named: bool) -> bool {
    if named {
        f.ident is None
    } else {
        f.ident is Some
    }
}

/// The number of malformed fields in a list.
pub open spec fn malformed_count(s: Seq<FieldInput>, named: bool) -> nat
    decreases s.len(),
{
    if s.len() == 0 {
        0
    } else {
        malformed_count(s.drop_last(), named) + if malformed(s.last(), named) {
            1nat
        } else {
            0nat
        }
    }
}

/// Whether `e` reports, all together, every malformed field of `s`.
pub open spec fn reports_all(e: Error, s: Seq<FieldInput>, named: bool) -> bool {
    match e {
        Error::Multiple(es) => {
            &&& es@.len() == malformed_count(s, named)
            &&& forall|k: int|
                0 <= k < es@.len() ==> if named {
                    #[trigger] es@[k] is MissingIdent
                } else {
                    es@[k] is UnexpectedIdent
                }
        },
        _ => false,
    }
}

/// How a field is written in a generic parameter or argument list.
#[derive(Clone, Copy)]
pub enum Form {
    /// Its state parameter.
    Param,
    /// Its unset state.
    Unset,
    /// Its declared type: the set state.
    Declared,
    /// The state in which finishing accepts it: its declared type if it is
    /// required, any state that resolves to that type if it has a default.
    Completed,
    /// The parameter finishing declares for it: one that resolves to its
    /// declared type if it has a default, nothing if it is required.
    Resolvable,
    /// Nothing.
    Omit,
}

pub open spec fn form_args(form: Form, f: Field) -> Seq<TypeArg> {
    match form {
        Form::Param => seq![TypeArg::Param(f.generic_ident)],
        Form::Unset => seq![TypeArg::NoData(f.ty)],
        Form::Declared => seq![TypeArg::Concrete(f.ty)],
        Form::Completed => if f.has_default {
            seq![TypeArg::Param(f.generic_ident)]
        } else {
            seq![TypeArg::Concrete(f.ty)]
        },
        Form::Resolvable => if f.has_default {
            seq![TypeArg::OrDefault(f.generic_ident, f.ty)]
        } else {
            seq![]
        },
        Form::Omit => seq![],
    }
}

/// The entries for `fs` in order, field `i` written in the form `exception`
/// and every other field in the form `usual`.
pub open spec fn except_args(fs: Seq<Field>, i: int, usual: Form, exception: Form) -> Seq<TypeArg>
    decreases fs.len(),
{
    if fs.len() == 0 {
        seq![]
    } else {
        except_args(fs.drop_last(), i, usual, exception) + form_args(
            if fs.len() - 1 == i {
                exception
            } else {
                usual
            },
            fs.last(),
        )
    }
}

/// The entries for `fs` in order, every field in the form `form`.
pub open spec fn all_args(fs: Seq<Field>, form: Form) -> Seq<TypeArg> {
    except_args(fs, fs.len() as int, form, form)
}

pub fn write_form(form: Form, f: &Field) -> (r: Vec<TypeArg>)
    ensures
        r@ == form_args(form, *f),
{
    let mut r: Vec<TypeArg> = Vec::new();
    match form {
        Form::Param => r.push(TypeArg::Param(f.generic_ident.clone())),
        Form::Unset => r.push(TypeArg::NoData(f.ty.clone())),
        Form::Declared => r.push(TypeArg::Concrete(f.ty.clone())),
        Form::Completed => {
            if f.has_default {
                r.push(TypeArg::Param(f.generic_ident.clone()))
            } else {
                r.push(TypeArg::Concrete(f.ty.clone()))
            }
        },
        Form::Resolvable => {
            if f.has_default {
                r.push(TypeArg::OrDefault(f.generic_ident.clone(), f.ty.clone()))
            }
        },
        Form::Omit => {},
    }
    assert(r@ =~= form_args(form, *f));
    r
}

/// Whether `fs` are the named fields read from `v`, in order.
pub open spec fn named_from(fs: Seq<NamedField>, v: Seq<FieldInput>) -> bool {
    &&& fs.len() == v.len()
    &&& forall|k: int|
        0 <= k < v.len() ==> (#[trigger] fs[k]).ident == v[k].ident->Some_0 && fs[k].field.derived(
            v[k].ident->Some_0@,
            v[k],
        )
}

/// Whether `fs` are the positional fields read from `v`, in order.
pub open spec fn unnamed_from(fs: Seq<UnnamedField>, v: Seq<FieldInput>) -> bool {
    &&& fs.len() == v.len()
    &&& forall|k: int|
        0 <= k < v.len() ==> (#[trigger] fs[k]).idx == k && fs[k].field.derived(decimal_text(k as nat), v[k])
}

/// Whether `r` is what reading the field list `input` gives.
pub open spec fn fields_read(input: FieldsInput, r: Result<Fields, Error>) -> bool {
    match input {
        FieldsInput::Named(v) => {
            &&& malformed_count(v@, true) == 0 <==> r is Ok
            &&& r is Ok ==> (r->Ok_0 matches Fields::Named(fs) && named_from(fs@, v@))
            &&& r is Err ==> reports_all(r->Err_0, v@, true)
        },
        FieldsInput::Unnamed(v) => {
            &&& malformed_count(v@, false) == 0 <==> r is Ok
            &&& r is Ok ==> (r->Ok_0 matches Fields::Unnamed(fs) && unnamed_from(fs@, v@))
            &&& r is Err ==> reports_all(r->Err_0, v@, false)
        },
        FieldsInput::Unit => r matches Ok(Fields::Unit),
    }
}

/// The fields of a record, with their derived identifiers.
pub enum Fields {
    Named(Vec<NamedField>),
    Unnamed(Vec<UnnamedField>),
    Unit,
}

impl Fields {
    /// The fields in declaration order.
    pub open spec fn all(self) -> Seq<Field> {
        match self {
            Fields::Named(v) => v@.map_values(|f: NamedField| f.field),
            Fields::Unnamed(v) => v@.map_values(|f: UnnamedField| f.field),
            Fields::Unit => Seq::empty(),
        }
    }

    /// Reads a field list; every malformed field is reported, together.
    pub fn try_from(input: &FieldsInput) -> (r: Result<Fields, Error>)
        ensures
            fields_read(*input, r),
    {
        match input {
            FieldsInput::Named(v) => {
                let mut errors: Vec<Error> = Vec::new();
                let mut fields: Vec<NamedField> = Vec::new();
                let mut k: usize = 0;
                while k < v.len()
                    invariant
                        k <= v@.len(),
                        errors@.len() == malformed_count(v@.take(k as int), true),
                        forall|j: int| 0 <= j < errors@.len() ==> #[trigger] errors@[j] is MissingIdent,
                        errors@.len() == 0 ==> fields@.len() == k && forall|j: int|
                            0 <= j < k ==> (#[trigger] fields@[j]).ident == v@[j].ident->Some_0
                                && fields@[j].field.derived(v@[j].ident->Some_0@, v@[j]),
                    decreases v.len() - k,
                {
                    assert(v@.take(k as int + 1).drop_last() =~= v@.take(k as int));
                    match NamedField::try_from(&v[k]) {
                        Ok(f) => fields.push(f),
                        Err(e) => errors.push(e),
                    }
                    k = k + 1;
                }
                assert(v@.take(k as int) =~= v@);
                if errors.len() == 0 {
                    Ok(Fields::Named(fields))
                } else {
                    Err(Error::Multiple(errors))
                }
            },
            FieldsInput::Unnamed(v) => {
                let mut errors: Vec<Error> = Vec::new();
                let mut fields: Vec<UnnamedField> = Vec::new();
                let mut k: usize = 0;
                while k < v.len()
                    invariant
                        k <= v@.len(),
                        errors@.len() == malformed_count(v@.take(k as int), false),
                        forall|j: int| 0 <= j < errors@.len() ==> #[trigger] errors@[j] is UnexpectedIdent,
                        errors@.len() == 0 ==> fields@.len() == k && forall|j: int|
                            0 <= j < k ==> (#[trigger] fields@[j]).idx == j
                                && fields@[j].field.derived(decimal_text(j as nat), v@[j]),
                    decreases v.len() - k,
                {
                    assert(v@.take(k as int + 1).drop_last() =~= v@.take(k as int));
                    match UnnamedField::try_from(k, &v[k]) {
                        Ok(f) => fields.push(f),
                        Err(e) => errors.push(e),
                    }
                    k = k + 1;
                }
                assert(v@.take(k as int) =~= v@);
                if errors.len() == 0 {
                    Ok(Fields::Unnamed(fields))
                } else {
                    Err(Error::Multiple(errors))
                }
            },
            FieldsInput::Unit => Ok(Fields::Unit),
        }
    }

    /// The number of fields.
    pub fn len(&self) -> (r: usize)
        ensures
            r == self.all().len(),
    {
        match self {
            Fields::Named(v) => v.len(),
            Fields::Unnamed(v) => v.len(),
            Fields::Unit => 0,
        }
    }

    /// The field at position `i`.
    pub fn field(&self, i: usize) -> (r: &Field)
        requires
            i < self.all().len(),
        ensures
            *r == self.all()[i as int],
    {
        match self {
            Fields::Named(v) => &v[i].field,
            Fields::Unnamed(v) => &v[i].field,
            Fields::Unit => unreached(),
        }
    }

    /// The fields in declaration order.
    pub fn fields(&self) -> (r: Vec<&Field>)
        ensures
            r@.len() == self.all().len(),
            forall|k: int| 0 <= k < r@.len() ==> *(#[trigger] r@[k]) == self.all()[k],
    {
        let mut r: Vec<&Field> = Vec::new();
        let n = self.len();
        let mut k: usize = 0;
        while k < n
            invariant
                n == self.all().len(),
                k <= n,
                r@.len() == k,
                forall|j: int| 0 <= j < k ==> *(#[trigger] r@[j]) == self.all()[j],
            decreases n - k,
        {
            r.push(self.field(k));
            k = k + 1;
        }
        r
    }

    /// The entries for every field in order: the field at `except_idx` in the
    /// form `exception`, the others in the form `usual`.
    pub fn fields_except(&self, except_idx: usize, usual: Form, exception: Form) -> (r: Vec<TypeArg>)
        ensures
            r@ == except_args(self.all(), except_idx as int, usual, exception),
    {
        let ghost fs = self.all();
        let mut r: Vec<TypeArg> = Vec::new();
        let n = self.len();
        let mut k: usize = 0;
        while k < n
            invariant
                fs == self.all(),
                n == fs.len(),
                k <= n,
                r@ == except_args(fs.take(k as int), except_idx as int, usual, exception),
            decreases n - k,
        {
            let form = if k == except_idx {
                exception
            } else {
                usual
            };
            let mut w = write_form(form, self.field(k));
            r.append(&mut w);
            proof {
                let t = fs.take(k as int + 1);
                assert(t.drop_last() =~= fs.take(k as int));
                assert(t.last() == fs[k as int]);
            }
            k = k + 1;
        }
        assert(fs.take(n as int) =~= fs);
        r
    }

    /// The storage members of the builder: one per field, typed by the
    /// field's state parameter.
    pub fn field_definitions(&self) -> (r: Vec<Member>)
        ensures
            r@.len() == self.all().len(),
            forall|k: int| 0 <= k < r@.len() ==> (#[trigger] r@[k]).name == self.all()[k].field_ident
                && r@[k].ty == TypeArg::Param(self.all()[k].generic_ident),
    {
        let mut r: Vec<Member> = Vec::new();
        let n = self.len();
        let mut k: usize = 0;
        while k < n
            invariant
                n == self.all().len(),
                k <= n,
                r@.len() == k,
                forall|j: int| 0 <= j < k ==> (#[trigger] r@[j]).name == self.all()[j].field_ident
                    && r@[j].ty == TypeArg::Param(self.all()[j].generic_ident),
            decreases n - k,
        {
            let f = self.field(k);
            r.push(Member { name: f.field_ident.clone(), ty: TypeArg::Param(f.generic_ident.clone()) });
            k = k + 1;
        }
        r
    }

    /// The storage members that a fresh builder initialises to the unset state.
    pub fn default_constructors(&self) -> (r: Vec<String>)
        ensures
            r@.len() == self.all().len(),
            forall|k: int| 0 <= k < r@.len() ==> #[trigger] r@[k] == self.all()[k].field_ident,
    {
        let mut r: Vec<String> = Vec::new();
        let n = self.len();
        let mut k: usize = 0;
        while k < n
            invariant
                n == self.all().len(),
                k <= n,
                r@.len() == k,
                forall|j: int| 0 <= j < k ==> #[trigger] r@[j] == self.all()[j].field_ident,
            decreases n - k,
        {
            r.push(self.field(k).field_ident.clone());
            k = k + 1;
        }
        r
    }

    /// The state parameters, one per field.
    pub fn generics(&self) -> (r: Vec<TypeArg>)
        ensures
            r@ == all_args(self.all(), Form::Param),
    {
        self.fields_except(self.len(), Form::Param, Form::Param)
    }

    /// The state arguments of a fresh builder: every field unset.
    pub fn no_data_generics(&self) -> (r: Vec<TypeArg>)
        ensures
            r@ == all_args(self.all(), Form::Unset),
    {
        self.fields_except(self.len(), Form::Unset, Form::Unset)
    }

    /// The state arguments that finishing accepts.
    pub fn completed_generics(&self) -> (r: Vec<TypeArg>)
        ensures
            r@ == all_args(self.all(), Form::Completed),
    {
        self.fields_except(self.len(), Form::Completed, Form::Completed)
    }
}

} // verus!
