use vstd::prelude::*;
use vstd::string::StrSliceExecFns;

verus! {

/// The ".xlsx" suffix, as a character sequence.
pub open spec fn xlsx_suffix() -> Seq<char> {
    seq!['.', 'x', 'l', 's', 'x']
}

/// The workbook's internal name for a display name: the display name with
/// one trailing case-sensitive ".xlsx" removed, or unchanged where that
/// exact suffix is absent. No further validation: this is deliberate
/// leniency, not a format check.
pub open spec fn spec_internal_name(display_name: Seq<char>) -> Seq<char> {
    if display_name.len() >= 5 && display_name.skip(display_name.len() - 5) == xlsx_suffix() {
        display_name.take(display_name.len() - 5)
    } else {
        display_name
    }
}

/// Derives the workbook's internal name from its display name, exactly as
/// `spec_internal_name` states it.
pub fn internal_name(display_name: &str) -> (r: String)
    ensures
        r@ == spec_internal_name(display_name@),
{
    let n = display_name.unicode_len();
    if n >= 5 {
        let tail = display_name.substring_char(n - 5, n);
        let is_xlsx = tail.unicode_len() == 5 && tail.get_char(0) == '.' && tail.get_char(1) == 'x'
            && tail.get_char(2) == 'l' && tail.get_char(3) == 's' && tail.get_char(4) == 'x';
        proof {
            assert(tail@ =~= display_name@.skip(n - 5));
            if is_xlsx {
                assert(tail@ =~= xlsx_suffix());
            } else {
                assert(tail@ !~= xlsx_suffix());
            }
        }
        if is_xlsx {
            let kept = display_name.substring_char(0, n - 5);
            proof {
                assert(kept@ =~= display_name@.take(n - 5));
            }
            kept.to_owned()
        } else {
            display_name.to_owned()
        }
    } else {
        display_name.to_owned()
    }
}

/// The locale every decoded workbook is given.
pub const WORKBOOK_LOCALE: &'static str = "en";

/// The timezone every decoded workbook is given.
pub const WORKBOOK_TIMEZONE: &'static str = "UTC";

/// The language every queryable model is built with.
pub const MODEL_LANGUAGE: &'static str = "en";

} // verus!
