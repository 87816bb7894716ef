//! Planning the flag-parsing companion of an interactive step's struct: the
//! companion's name, its fields each wrapped in an option, and the
//! pass-through wrapper a single subcommand field asks for. The plan is
//! plain data; rendering it into source tokens happens outside.

use vstd::prelude::*;

verus! {

/// One field of the annotated struct: its name (none for a tuple field), its
/// type's text, and its annotations.
#[derive(Debug)]
pub struct FieldArgs {
    pub ident: Option<String>,
    pub ty: String,
    pub single: bool,
    pub subcommand: bool,
}

/// The annotated struct: its name and fields.
#[derive(Debug)]
pub struct StructArgs {
    pub ident: String,
    pub fields: Vec<FieldArgs>,
}

/// One planned field of the companion struct.
#[derive(Debug)]
pub struct FieldPlan {
    pub ident: Option<String>,
    pub ty: String,
}

/// The planned pass-through wrapper for a single subcommand field.
#[derive(Debug)]
pub struct PassThruPlan {
    pub ident: String,
    pub inner_ty: String,
}

/// The planned companion struct.
#[derive(Debug)]
pub struct ClapVariantPlan {
    pub name: String,
    pub passthru: Option<PassThruPlan>,
    pub fields: Vec<FieldPlan>,
}

/// The companion's name: the struct's name with the companion suffix.
pub open spec fn spec_clap_variant_name(ident: Seq<char>) -> Seq<char> {
    ident + "ClapVariant"@
}

/// The pass-through wrapper's name.
pub open spec fn spec_passthru_name(ident: Seq<char>) -> Seq<char> {
    ident + "ClapVariantPassThru"@
}

/// A field type wrapped in an option, so every flag may be left unsupplied.
pub open spec fn spec_wrapped_ty(ty: Seq<char>) -> Seq<char> {
    "Option<"@ + ty + ">"@
}

/// The planned type of one field: a single subcommand field goes through the
/// pass-through wrapper, everything else keeps its own type; both wrapped in
/// an option.
pub open spec fn spec_field_ty(struct_ident: Seq<char>, f: FieldArgs) -> Seq<char> {
    if f.subcommand && f.single {
        spec_wrapped_ty(spec_passthru_name(struct_ident))
    } else {
        spec_wrapped_ty(f.ty@)
    }
}

/// The index of the last single subcommand field, whose pass-through wrapper
/// the plan carries, if any field asks for one.
pub open spec fn spec_last_single(fields: Seq<FieldArgs>) -> Option<int>
    decreases fields.len(),
{
    if fields.len() == 0 {
        None
    } else if fields.last().subcommand && fields.last().single {
        Some(fields.len() - 1)
    } else {
        spec_last_single(fields.drop_last())
    }
}

/// Plans the companion struct for the annotated one: the suffixed name, each
/// field's option-wrapped type (through the pass-through wrapper for a
/// single subcommand field), and the wrapper itself where one is asked for.
#[verifier::loop_isolation(false)]
pub fn gen(args: &StructArgs) -> (r: ClapVariantPlan)
    ensures
        r.name@ == spec_clap_variant_name(args.ident@),
        r.fields@.len() == args.fields@.len(),
        forall|i: int| 0 <= i < args.fields@.len() ==> #[trigger] r.fields@[i].ident
            == args.fields@[i].ident && r.fields@[i].ty@ == spec_field_ty(
            args.ident@,
            args.fields@[i],
        ),
        match spec_last_single(args.fields@) {
            None => r.passthru is None,
            Some(i) => r.passthru is Some && r.passthru->0.ident@ == spec_passthru_name(
                args.ident@,
            ) && r.passthru->0.inner_ty@ == args.fields@[i].ty@,
        },
{
    let mut name = args.ident.clone();
    name.append("ClapVariant");
    let mut passthru: Option<PassThruPlan> = None;
    let mut fields: Vec<FieldPlan> = Vec::new();
    let n = args.fields.len();
    let mut i: usize = 0;
    while i < n
        invariant
            0 <= i <= n,
            fields@.len() == i,
            forall|j: int| 0 <= j < i ==> #[trigger] fields@[j].ident == args.fields@[j].ident
                && fields@[j].ty@ == spec_field_ty(args.ident@, args.fields@[j]),
            match spec_last_single(args.fields@.take(i as int)) {
                None => passthru is None,
                Some(k) => passthru is Some && passthru->0.ident@ == spec_passthru_name(
                    args.ident@,
                ) && passthru->0.inner_ty@ == args.fields@[k].ty@,
            },
        decreases n - i,
    {
        let f = &args.fields[i];
        let ty_text = if f.subcommand && f.single {
            let mut passthru_ident = args.ident.clone();
            passthru_ident.append("ClapVariantPassThru");
            passthru = Some(PassThruPlan { ident: passthru_ident.clone(), inner_ty: f.ty.clone() });
            passthru_ident
        } else {
            f.ty.clone()
        };
        let mut wrapped = "Option<".to_owned();
        wrapped.append(ty_text.as_str());
        wrapped.append(">");
        let ident = match &f.ident {
            Some(s) => Some(s.clone()),
            None => None,
        };
        fields.push(FieldPlan { ident, ty: wrapped });
        proof {
            let t = args.fields@.take(i as int + 1);
            assert(t.drop_last() =~= args.fields@.take(i as int));
            assert(t.last() == args.fields@[i as int]);
        }
        i = i + 1;
    }
    proof {
        assert(args.fields@.take(n as int) =~= args.fields@);
    }
    ClapVariantPlan { name, passthru, fields }
}

} // verus!
