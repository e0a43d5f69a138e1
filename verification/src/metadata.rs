use vstd::prelude::*;

verus! {

/// The character for one decimal digit.
pub open spec fn digit(d: int) -> char {
    if d == 0 {
        '0'
    } else if d == 1 {
        '1'
    } else if d == 2 {
        '2'
    } else if d == 3 {
        '3'
    } else if d == 4 {
        '4'
    } else if d == 5 {
        '5'
    } else if d == 6 {
        '6'
    } else if d == 7 {
        '7'
    } else if d == 8 {
        '8'
    } else {
        '9'
    }
}

/// A number written in base ten, without sign or leading zeros.
pub open spec fn decimal(n: nat) -> Seq<char>
    decreases n,
{
    if n < 10 {
        seq![digit(n as int)]
    } else {
        decimal(n / 10).push(digit((n % 10) as int))
    }
}

/// The text that every parcel's name starts with.
pub open spec fn name_prefix() -> Seq<char> {
    seq!['P', 'a', 'r', 'c', 'e', 'l', ' ', '#']
}

/// Name of the asset minted for a parcel: `Parcel #` and its identifier.
pub open spec fn parcel_name_text(parcel_id: u16) -> Seq<char> {
    name_prefix() + decimal(parcel_id as nat)
}

/// Metadata address of a parcel's asset: the configured prefix and the
/// parcel's identifier.
pub open spec fn parcel_uri_text(uri_base: Seq<char>, parcel_id: u16) -> Seq<char> {
    uri_base + decimal(parcel_id as nat)
}

/// One decimal digit as text.
fn digit_text(d: u16) -> (text: &'static str)
    requires
        d < 10,
    ensures
        text@ == seq![digit(d as int)],
{
    proof {
        reveal_strlit("0");
        reveal_strlit("1");
        reveal_strlit("2");
        reveal_strlit("3");
        reveal_strlit("4");
        reveal_strlit("5");
        reveal_strlit("6");
        reveal_strlit("7");
        reveal_strlit("8");
        reveal_strlit("9");
    }
    let text = if d == 0 {
        "0"
    } else if d == 1 {
        "1"
    } else if d == 2 {
        "2"
    } else if d == 3 {
        "3"
    } else if d == 4 {
        "4"
    } else if d == 5 {
        "5"
    } else if d == 6 {
        "6"
    } else if d == 7 {
        "7"
    } else if d == 8 {
        "8"
    } else {
        "9"
    };
    assert(text@ =~= seq![digit(d as int)]);
    text
}

/// Appends `n` in base ten to `text`.
pub fn append_decimal(text: &mut String, n: u16)
    ensures
        final(text)@ == old(text)@ + decimal(n as nat),
    decreases n,
{
    if n >= 10 {
        append_decimal(text, n / 10);
    }
    text.append(digit_text(n % 10));
    assert(text@ =~= old(text)@ + decimal(n as nat));
}

/// The name of the asset minted for parcel `parcel_id`.
pub fn parcel_name(parcel_id: u16) -> (name: String)
    ensures
        name@ == parcel_name_text(parcel_id),
{
    proof {
        reveal_strlit("Parcel #");
    }
    let mut name = String::from_str("Parcel #");
    assert(name@ =~= name_prefix());
    append_decimal(&mut name, parcel_id);
    name
}

/// The metadata address of the asset minted for parcel `parcel_id`.
pub fn parcel_uri(uri_base: &String, parcel_id: u16) -> (uri: String)
    ensures
        uri@ == parcel_uri_text(uri_base@, parcel_id),
{
    let mut uri = uri_base.clone();
    append_decimal(&mut uri, parcel_id);
    uri
}

} // verus!
