use vstd::prelude::*;

verus! {

/// The reserved field name of a magic record.
pub open spec fn magic_field_spec() -> Seq<char> {
    "$__v8_magic_field"@
}

/// The reserved discriminator of the magic type named `ty`.
pub open spec fn magic_name_spec(ty: Seq<char>) -> Seq<char> {
    "$__v8_magic_"@ + ty
}

/// The reserved field name of a magic record.
pub fn magic_field() -> (r: &'static str)
    ensures
        r@ == magic_field_spec(),
{
    "$__v8_magic_field"
}

/// The reserved discriminator of the magic type named `ty`.
pub fn magic_name(ty: &str) -> (r: String)
    ensures
        r@ == magic_name_spec(ty@),
{
    let mut name = String::from_str("$__v8_magic_");
    name.append(ty);
    name
}

/// A native value in transit: a one-field record whose discriminator and
/// field name are reserved, and which carries the value itself.
#[derive(Debug)]
pub struct MagicRecord<T> {
    pub name: String,
    pub field: String,
    pub value: T,
}

/// A record that does not have the shape of the expected magic type.
#[derive(Debug)]
pub struct DecodeError {
    /// What was expected: `a <TypeName>`.
    pub expected: String,
}

/// Whether `rec` has the reserved shape of the magic type named `ty`.
pub open spec fn is_magic_record<T>(rec: MagicRecord<T>, ty: Seq<char>) -> bool {
    rec.name@ == magic_name_spec(ty) && rec.field@ == magic_field_spec()
}

/// What decoding `rec` as the magic type named `ty` gives.
pub open spec fn decode_result<T>(rec: MagicRecord<T>, ty: Seq<char>) -> Result<
    T,
    Seq<char>,
> {
    if is_magic_record(rec, ty) {
        Ok(rec.value)
    } else {
        Err("a "@ + ty)
    }
}

/// Wraps `x`, a value of the magic type named `ty`, for transit.
pub fn magic_serialize<T>(x: T, ty: &str) -> (r: MagicRecord<T>)
    ensures
        r.name@ == magic_name_spec(ty@),
        r.field@ == magic_field_spec(),
        r.value == x,
{
    MagicRecord { name: magic_name(ty), field: String::from_str(magic_field()), value: x }
}

/// Takes the value out of `rec`, which must have the reserved shape of the
/// magic type named `ty`; otherwise reports what was expected.
pub fn magic_deserialize<T>(rec: MagicRecord<T>, ty: &str) -> (r: Result<T, DecodeError>)
    ensures
        match (r, decode_result(rec, ty@)) {
            (Ok(v), Ok(w)) => v == w,
            (Err(e), Err(m)) => e.expected@ == m,
            _ => false,
        },
{
    let expected_name = magic_name(ty);
    let expected_field = String::from_str(magic_field());
    if rec.name == expected_name && rec.field == expected_field {
        Ok(rec.value)
    } else {
        let mut expected = String::from_str("a ");
        expected.append(ty);
        Err(DecodeError { expected })
    }
}

/// A value survives transit unchanged, under the reserved discriminator of
/// its type; a record decoded as another magic type is rejected with that
/// type's name.
pub proof fn lemma_magic_round_trip<T>(rec: MagicRecord<T>, x: T, name: Seq<char>, other: Seq<char>)
    requires
        rec.name@ == magic_name_spec(name),
        rec.field@ == magic_field_spec(),
        rec.value == x,
        other != name,
    ensures
        decode_result(rec, name) == Ok::<T, Seq<char>>(x),
        decode_result(rec, other) == Err::<T, Seq<char>>("a "@ + other),
{
    assert(magic_name_spec(name) != magic_name_spec(other)) by {
        let p = "$__v8_magic_"@;
        if magic_name_spec(name) == magic_name_spec(other) {
            assert(name =~= magic_name_spec(name).subrange(p.len() as int, magic_name_spec(name).len() as int));
            assert(other =~= magic_name_spec(other).subrange(p.len() as int, magic_name_spec(other).len() as int));
        }
    }
}

} // verus!
