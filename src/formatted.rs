//! Status messages whose templates carry typed date and time parameters, such
//! as `Bezorgd op {dateAbs:2019-08-27T12:28:12+02:00}`.
use std::fmt::Write;

use vstd::prelude::*;

use crate::pattern::{group_pairs, regex_group_pairs, regex_replaced, replace_all, texts_view};
use crate::redirect::{pairs_view, Pairs};

verus! {

/// A parameter in a template: `{kind:value}`.
pub const PARAM_PATTERN: &'static str = "\\{(\\w+):([^}]+)\\}";

/// Any braced span in a template.
pub const PLACEHOLDER_PATTERN: &'static str = "\\{[^}]+\\}";

/// What a parameter leaves in the template, to be filled when it is shown.
pub const PLACEHOLDER: &'static str = "{}";

/// How a `dateAbs` parameter is shown: weekday, day of month and month.
pub const DATE_ABS_FORMAT: &'static str = "%A %e %B";

/// The lower-case mapping of `s`.
pub uninterp spec fn lower_of(s: Seq<char>) -> Seq<char>;

/// The date (with its offset) of an RFC 3339 timestamp, as chrono shows it.
pub uninterp spec fn rfc3339_date_text(value: Seq<char>) -> Option<Seq<char>>;

/// The time of day of an RFC 3339 timestamp, as chrono shows it.
pub uninterp spec fn rfc3339_time_text(value: Seq<char>) -> Option<Seq<char>>;

/// An RFC 3339 timestamp, as chrono shows it.
pub uninterp spec fn rfc3339_date_time_text(value: Seq<char>) -> Option<Seq<char>>;

/// An RFC 3339 timestamp shown by the chrono format `format`; the inner
/// `None` where the format cannot be shown.
pub uninterp spec fn rfc3339_formatted_text(value: Seq<char>, format: Seq<char>) -> Option<Option<Seq<char>>>;

/// Relies on str::to_lowercase: the result depends on the characters alone.
#[verifier::external_body]
fn lowercase(s: &str) -> (r: String)
    ensures
        r@ == lower_of(s@),
{
    s.to_lowercase()
}

/// Relies on chrono::DateTime::parse_from_rfc3339, DateTime::date and the
/// Display of chrono::Date.
#[verifier::external_body]
#[allow(deprecated)]
fn render_date(value: &str) -> (r: Result<String, chrono::ParseError>)
    ensures
        match r {
            Ok(s) => rfc3339_date_text(value@) == Some(s@),
            Err(_) => rfc3339_date_text(value@) is None,
        },
{
    Ok(chrono::DateTime::parse_from_rfc3339(value)?.date().to_string())
}

/// Relies on chrono::DateTime::parse_from_rfc3339, DateTime::time and the
/// Display of chrono::NaiveTime.
#[verifier::external_body]
fn render_time(value: &str) -> (r: Result<String, chrono::ParseError>)
    ensures
        match r {
            Ok(s) => rfc3339_time_text(value@) == Some(s@),
            Err(_) => rfc3339_time_text(value@) is None,
        },
{
    Ok(chrono::DateTime::parse_from_rfc3339(value)?.time().to_string())
}

/// Relies on chrono::DateTime::parse_from_rfc3339 and the Display of chrono::DateTime.
#[verifier::external_body]
fn render_date_time(value: &str) -> (r: Result<String, chrono::ParseError>)
    ensures
        match r {
            Ok(s) => rfc3339_date_time_text(value@) == Some(s@),
            Err(_) => rfc3339_date_time_text(value@) is None,
        },
{
    Ok(chrono::DateTime::parse_from_rfc3339(value)?.to_string())
}

/// Relies on chrono::DateTime::parse_from_rfc3339 and DateTime::format: the
/// inner `None` where the format holds an item that cannot be shown.
#[verifier::external_body]
fn render_formatted(value: &str, format: &str) -> (r: Result<Option<String>, chrono::ParseError>)
    ensures
        match r {
            Ok(Some(s)) => rfc3339_formatted_text(value@, format@) == Some(Some(s@)),
            Ok(None) => rfc3339_formatted_text(value@, format@) == Some(None::<Seq<char>>),
            Err(_) => rfc3339_formatted_text(value@, format@) is None,
        },
{
    let t = chrono::DateTime::parse_from_rfc3339(value)?;
    let mut out = String::new();
    Ok(write!(out, "{}", t.format(format)).ok().map(|_| out))
}

/// The text of an error, as its Display shows it.
pub fn err_to_str<T: core::fmt::Display>(err: T) -> (r: String)
    ensures
        vstd::string::to_string_from_display_ensures::<T>(&err, r),
{
    err.to_string()
}

/// How a parameter of kind `kind` (lower case) with value `value` is shown;
/// `None` where the kind is unknown or the value is not a timestamp.
pub open spec fn param_text(kind: Seq<char>, value: Seq<char>) -> Option<Seq<char>> {
    if kind == "date"@ {
        rfc3339_date_text(value)
    } else if kind == "time"@ {
        rfc3339_time_text(value)
    } else if kind == "datetime"@ {
        rfc3339_date_time_text(value)
    } else if kind == "dateabs"@ {
        match rfc3339_formatted_text(value, DATE_ABS_FORMAT@) {
            Some(Some(t)) => Some(t),
            _ => None,
        }
    } else {
        None
    }
}

/// `m` is the text of some chrono parse error.
pub open spec fn parse_error_text(m: String) -> bool {
    exists|e: chrono::ParseError|
        #[trigger] vstd::string::to_string_from_display_ensures::<chrono::ParseError>(&e, m)
}

/// `r` holds the shown text `o`, or, where there is none, a parse error's text.
pub open spec fn shown_or_parse_error(o: Option<Seq<char>>, r: Result<String, String>) -> bool {
    match o {
        Some(t) => r matches Ok(s) && s@ == t,
        None => r matches Err(m) && parse_error_text(m),
    }
}

/// What showing a parameter of kind `kind` (lower case) with value `value`
/// yields: its text, the parse error's text, or `Invalid type: ` and the kind.
pub open spec fn param_matches(kind: Seq<char>, value: Seq<char>, r: Result<String, String>) -> bool {
    if kind == "date"@ {
        shown_or_parse_error(rfc3339_date_text(value), r)
    } else if kind == "time"@ {
        shown_or_parse_error(rfc3339_time_text(value), r)
    } else if kind == "datetime"@ {
        shown_or_parse_error(rfc3339_date_time_text(value), r)
    } else if kind == "dateabs"@ {
        match rfc3339_formatted_text(value, DATE_ABS_FORMAT@) {
            Some(Some(t)) => r matches Ok(s) && s@ == t,
            Some(None) => r matches Err(m) && m@ == "unshowable date format"@,
            None => r matches Err(m) && parse_error_text(m),
        }
    } else {
        r matches Err(m) && m@ == "Invalid type: "@ + kind
    }
}

/// Shows one parameter, given its kind in lower case.
pub fn render_param(kind: &String, value: &str) -> (r: Result<String, String>)
    ensures
        param_matches(kind@, value@, r),
        match param_text(kind@, value@) {
            Some(t) => r matches Ok(s) && s@ == t,
            None => r is Err,
        },
{
    if *kind == String::from_str("date") {
        match render_date(value) {
            Ok(s) => Ok(s),
            Err(e) => Err(err_to_str(e)),
        }
    } else if *kind == String::from_str("time") {
        match render_time(value) {
            Ok(s) => Ok(s),
            Err(e) => Err(err_to_str(e)),
        }
    } else if *kind == String::from_str("datetime") {
        match render_date_time(value) {
            Ok(s) => Ok(s),
            Err(e) => Err(err_to_str(e)),
        }
    } else if *kind == String::from_str("dateabs") {
        match render_formatted(value, DATE_ABS_FORMAT) {
            Ok(Some(s)) => Ok(s),
            Ok(None) => Err(String::from_str("unshowable date format")),
            Err(e) => Err(err_to_str(e)),
        }
    } else {
        let mut message = String::from_str("Invalid type: ");
        message.append(kind.as_str());
        Err(message)
    }
}

/// The shown parameters of a template's `{kind:value}` pairs, kinds compared
/// in lower case; `None` where one of them cannot be shown.
pub open spec fn rendered_params(pairs: Pairs) -> Option<Seq<Seq<char>>>
    decreases pairs.len(),
{
    if pairs.len() == 0 {
        Some(Seq::empty())
    } else {
        match (
            rendered_params(pairs.drop_last()),
            param_text(lower_of(pairs.last().0), pairs.last().1),
        ) {
            (Some(done), Some(t)) => Some(done.push(t)),
            _ => None,
        }
    }
}

proof fn lemma_rendered_failure_extends(pairs: Pairs, k: int)
    requires
        0 <= k <= pairs.len(),
        rendered_params(pairs.subrange(0, k)) is None,
    ensures
        rendered_params(pairs) is None,
    decreases pairs.len(),
{
    if k == pairs.len() {
        assert(pairs.subrange(0, k) =~= pairs);
    } else {
        assert(pairs.drop_last().subrange(0, k) =~= pairs.subrange(0, k));
        lemma_rendered_failure_extends(pairs.drop_last(), k);
    }
}

/// The template `s` with its first `{}` replaced by `with`.
pub open spec fn fill_first(s: Seq<char>, with: Seq<char>) -> Seq<char>
    decreases s.len(),
{
    if s.len() < 2 {
        s
    } else if s[0] == '{' && s[1] == '}' {
        with + s.subrange(2, s.len() as int)
    } else {
        seq![s[0]] + fill_first(s.drop_first(), with)
    }
}

/// The template `s` with its `{}` filled, one parameter after another.
pub open spec fn fill_all(s: Seq<char>, params: Seq<Seq<char>>) -> Seq<char>
    decreases params.len(),
{
    if params.len() == 0 {
        s
    } else {
        fill_first(fill_all(s, params.drop_last()), params.last())
    }
}

/// Replaces the first `{}` of `s` by `with`.
pub fn fill_placeholder(s: &str, with: &str) -> (r: String)
    ensures
        r@ == fill_first(s@, with@),
{
    let n = s.unicode_len();
    let mut out = String::new();
    let mut i: usize = 0;
    assert(s@.subrange(0, n as int) =~= s@);
    while n - i > 1
        invariant
            i <= n,
            n == s@.len(),
            fill_first(s@, with@) == out@ + fill_first(s@.subrange(i as int, n as int), with@),
        decreases n - i,
    {
        let ghost rest = s@.subrange(i as int, n as int);
        assert(rest.drop_first() =~= s@.subrange(i as int + 1, n as int));
        if s.get_char(i) == '{' && s.get_char(i + 1) == '}' {
            let tail = s.substring_char(i + 2, n);
            assert(rest.subrange(2, rest.len() as int) =~= tail@);
            out.append(with);
            out.append(tail);
            assert(out@ =~= fill_first(s@, with@));
            return out;
        }
        let one = s.substring_char(i, i + 1);
        assert(one@ =~= seq![rest[0]]);
        out.append(one);
        i = i + 1;
    }
    let tail = s.substring_char(i, n);
    out.append(tail);
    assert(out@ =~= fill_first(s@, with@));
    out
}

/// The `i`-th pair is the first that cannot be shown, and `m` says why.
pub open spec fn first_failure(pairs: Pairs, i: int, m: String) -> bool {
    0 <= i < pairs.len() && rendered_params(pairs.subrange(0, i)) is Some && param_matches(
        lower_of(pairs[i].0),
        pairs[i].1,
        Err(m),
    )
}

/// Some pair is the first that cannot be shown, and `m` says why.
pub open spec fn fails_at_some_pair(pairs: Pairs, m: String) -> bool {
    exists|i: int| #[trigger] first_failure(pairs, i, m)
}

/// The shown parameters of the template `raw`, where all can be shown.
pub open spec fn params_of(raw: Seq<char>) -> Option<Seq<Seq<char>>> {
    match regex_group_pairs(PARAM_PATTERN@, raw) {
        Some(pairs) => rendered_params(pairs),
        None => None,
    }
}

/// What reading the parameters of the template `raw` yields: all of them
/// shown, in order, or the error of the first that cannot be.
pub open spec fn extract_matches(raw: Seq<char>, r: Result<Vec<String>, String>) -> bool {
    match regex_group_pairs(PARAM_PATTERN@, raw) {
        Some(pairs) => match rendered_params(pairs) {
            Some(texts) => r matches Ok(v) && texts_view(v@) == texts,
            None => r is Err && fails_at_some_pair(pairs, r->Err_0),
        },
        None => r matches Err(m) && m@ == "invalid parameter pattern"@,
    }
}

/// The raw form of a status message.
#[derive(Clone, Debug)]
pub struct RawFormattedStatus {
    pub title: String,
    pub body: String,
    pub short: String,
}

/// A status message whose parameters have been read and shown.
#[derive(Clone, Debug)]
pub struct FormattedStatus {
    pub title: String,
    pub body_raw: String,
    pub body_params: Vec<String>,
    pub short_raw: String,
    pub short_params: Vec<String>,
}

impl FormattedStatus {
    /// Reads and shows the parameters of a template, in order.
    pub fn extract_params(raw: &str) -> (r: Result<Vec<String>, String>)
        ensures
            extract_matches(raw@, r),
    {
        let pairs = match group_pairs(PARAM_PATTERN, raw) {
            Some(p) => p,
            None => return Err(String::from_str("invalid parameter pattern")),
        };
        let ghost all = pairs_view(pairs@);
        let mut params: Vec<String> = Vec::new();
        let mut i: usize = 0;
        while i < pairs.len()
            invariant
                i <= pairs@.len(),
                all == pairs_view(pairs@),
                regex_group_pairs(PARAM_PATTERN@, raw@) == Some(all),
                rendered_params(all.subrange(0, i as int)) == Some(texts_view(params@)),
            decreases pairs@.len() - i,
        {
            assert(all.subrange(0, i as int + 1).drop_last() =~= all.subrange(0, i as int));
            assert(all.subrange(0, i as int + 1).last() == all[i as int]);
            assert(all[i as int] == (pairs@[i as int].0@, pairs@[i as int].1@));
            let kind = lowercase(pairs[i].0.as_str());
            match render_param(&kind, pairs[i].1.as_str()) {
                Ok(text) => {
                    params.push(text);
                    assert(texts_view(params@) =~= texts_view(params@).drop_last().push(
                        params@.last()@,
                    ));
                },
                Err(e) => {
                    proof {
                        lemma_rendered_failure_extends(all, i as int + 1);
                        assert(first_failure(all, i as int, e));
                        assert(fails_at_some_pair(all, e));
                        assert(rendered_params(all) is None);
                    }
                    return Err(e);
                },
            }
            i = i + 1;
        }
        assert(all.subrange(0, all.len() as int) =~= all);
        Ok(params)
    }

    /// Fills the `{}` of `format` with `params`, one after another.
    pub fn format(format: &str, params: &Vec<String>) -> (r: String)
        ensures
            r@ == fill_all(format@, texts_view(params@)),
    {
        let mut result = String::from_str(format);
        let mut i: usize = 0;
        while i < params.len()
            invariant
                i <= params@.len(),
                result@ == fill_all(format@, texts_view(params@).subrange(0, i as int)),
            decreases params@.len() - i,
        {
            assert(texts_view(params@).subrange(0, i as int + 1).drop_last() =~= texts_view(
                params@,
            ).subrange(0, i as int));
            result = fill_placeholder(result.as_str(), params[i].as_str());
            i = i + 1;
        }
        assert(texts_view(params@).subrange(0, params@.len() as int) =~= texts_view(params@));
        result
    }

    /// The short form of the message.
    pub fn short(&self) -> (r: String)
        ensures
            r@ == fill_all(self.short_raw@, texts_view(self.short_params@)),
    {
        Self::format(self.short_raw.as_str(), &self.short_params)
    }

    /// The full form of the message.
    pub fn body(&self) -> (r: String)
        ensures
            r@ == fill_all(self.body_raw@, texts_view(self.body_params@)),
    {
        Self::format(self.body_raw.as_str(), &self.body_params)
    }

    /// Reads a raw status message: the parameters of body and short form are
    /// shown, and each braced span of the templates becomes a `{}`.
    pub fn try_from(value: RawFormattedStatus) -> (r: Result<FormattedStatus, String>)
        ensures
            r is Ok <==> (params_of(value.body@) is Some && params_of(value.short@) is Some
                && regex_replaced(PLACEHOLDER_PATTERN@, value.body@, PLACEHOLDER@) is Some
                && regex_replaced(PLACEHOLDER_PATTERN@, value.short@, PLACEHOLDER@) is Some),
            r matches Ok(f) ==> f.title == value.title && Some(f.body_raw@) == regex_replaced(
                PLACEHOLDER_PATTERN@,
                value.body@,
                PLACEHOLDER@,
            ) && Some(texts_view(f.body_params@)) == params_of(value.body@) && Some(f.short_raw@)
                == regex_replaced(PLACEHOLDER_PATTERN@, value.short@, PLACEHOLDER@) && Some(
                texts_view(f.short_params@),
            ) == params_of(value.short@),
            r matches Err(m) ==> if params_of(value.body@) is None {
                extract_matches(value.body@, Err(m))
            } else if params_of(value.short@) is None {
                extract_matches(value.short@, Err(m))
            } else {
                m@ == "invalid placeholder pattern"@
            },
    {
        let body_params = match Self::extract_params(value.body.as_str()) {
            Ok(p) => p,
            Err(e) => return Err(e),
        };
        let short_params = match Self::extract_params(value.short.as_str()) {
            Ok(p) => p,
            Err(e) => return Err(e),
        };
        let body_raw = match replace_all(PLACEHOLDER_PATTERN, value.body.as_str(), PLACEHOLDER) {
            Some(b) => b,
            None => return Err(String::from_str("invalid placeholder pattern")),
        };
        let short_raw = match replace_all(PLACEHOLDER_PATTERN, value.short.as_str(), PLACEHOLDER) {
            Some(s) => s,
            None => return Err(String::from_str("invalid placeholder pattern")),
        };
        Ok(FormattedStatus { title: value.title, body_raw, body_params, short_raw, short_params })
    }
}

} // verus!
