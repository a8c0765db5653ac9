//! Reading the dates of the portal's JSON.

use vstd::prelude::*;

use crate::date::{spec_parse_date, Date};
use crate::text::concat_str;

verus! {

/// The message for a date that cannot be read.
pub open spec fn date_error_message(s: Seq<char>) -> Seq<char> {
    "Формат даты "@ + s + " не поддерживается"@
}

/// Reads a date field of the portal's JSON (`DD.MM.YYYY` or
/// `YYYY-MM-DDThh:mm:ss`); any other text is refused with a message that
/// quotes it.
pub fn deserialize_date(s: &str) -> (r: Result<Date, String>)
    ensures
        r is Ok <==> spec_parse_date(s@) is Some,
        r matches Ok(d) ==> spec_parse_date(s@) == Some(d@),
        r matches Err(m) ==> m@ == date_error_message(s@),
{
    match Date::parse(s) {
        Some(d) => Ok(d),
        None => {
            let mut m = concat_str("Формат даты ", s);
            m.append(" не поддерживается");
            Err(m)
        },
    }
}

} // verus!
