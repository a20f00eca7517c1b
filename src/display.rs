//! Text form of a measured value, written as `<nominal>+/-<uncertainty>`.
//!
//! Each number is rendered by the caller in its default minimal decimal
//! form; the two renderings are composed here.
use vstd::prelude::*;

verus! {

/// The separator between the nominal value and its uncertainty.
pub open spec fn separator() -> Seq<char> {
    seq!['+', '/', '-']
}

/// The text of a measurement whose nominal value renders as `nominal` and
/// whose uncertainty renders as `uncertainty`.
pub open spec fn rendered(nominal: Seq<char>, uncertainty: Seq<char>) -> Seq<char> {
    nominal + separator() + uncertainty
}

/// Writes a measurement as its nominal text, `+/-`, and its uncertainty
/// text, in that order and with nothing else between them.
pub fn measurement_text(nominal: &str, uncertainty: &str) -> (r: String)
    ensures
        r@ == rendered(nominal@, uncertainty@),
{
    let mut r = String::from_str(nominal);
    r.append("+/-");
    proof {
        reveal_strlit("+/-");
    }
    r.append(uncertainty);
    r
}

} // verus!
