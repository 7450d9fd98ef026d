//! The typed envelopes and their grammar.
//!
//! Each envelope is an object whose members may come in any order; an
//! unknown member is skipped, an optional member may be `null` or absent, a
//! duplicate member, a missing required member or a wrongly typed member
//! makes the body malformed.  The spec functions here denote each body as a
//! mathematical value; the executable parsers in this module are proved to
//! return exactly that value.

use vstd::prelude::*;

use crate::models::ApiError;
use crate::models::ApiErrorDetail;
use crate::models::ApiResponse;
use crate::models::FileUploadResponse;
use crate::models::SuccessData;
use crate::parse::lit_null;
use crate::parse::lit_null_x;
use crate::parse::skip_value;
use crate::parse::skip_value_x;
use crate::parse::skip_ws;
use crate::parse::skip_ws_x;
use crate::parse::str_rest;
use crate::parse::str_rest_x;
use crate::parse::str_to_chars;

verus! {

/// The mathematical value of one `data` entry of a success envelope.
pub struct SuccessDataS {
    pub code: Seq<char>,
    pub additional_info: Option<Seq<Seq<char>>>,
    pub message: Seq<char>,
}

/// The mathematical value of a success envelope.
pub struct ApiResponseS {
    pub data: Seq<SuccessDataS>,
    pub message: Seq<char>,
    pub request_id: Seq<char>,
    pub object: Option<Seq<char>>,
}

/// The mathematical value of one detail entry of an error envelope.
pub struct ApiErrorDetailS {
    pub code: Seq<char>,
    pub message: Seq<char>,
    pub target: Option<Seq<char>>,
}

/// The mathematical value of an error envelope.
pub struct ApiErrorS {
    pub code: Seq<char>,
    pub message: Seq<char>,
    pub details: Option<Seq<ApiErrorDetailS>>,
    pub request_id: Option<Seq<char>>,
}

/// The mathematical value of an upload success envelope.
pub struct FileUploadResponseS {
    pub file_cache_key: Seq<char>,
    pub message: Seq<char>,
    pub code: Seq<char>,
}

/// An accumulated optional member: unseen, or seen with a value (`null`
/// collapses to the absent value on completion).
pub open spec fn seen<A>(o: Option<Option<A>>) -> Option<A> {
    match o {
        Option::None => Option::None,
        Option::Some(x) => x,
    }
}

/// A string value: a string literal and nothing else.
pub open spec fn str_value(s: Seq<char>, i: int) -> Option<(Seq<char>, int)> {
    if 0 <= i && i < s.len() && s[i] == '"' {
        str_rest(s, i + 1)
    } else {
        None
    }
}

/// A string-or-null value, for optional string members.
pub open spec fn opt_str_value(s: Seq<char>, i: int) -> Option<(Option<Seq<char>>, int)> {
    if !(0 <= i && i < s.len()) {
        None
    } else if s[i] == '"' {
        match str_rest(s, i + 1) {
            Some((t, j)) => Some((Some(t), j)),
            None => None,
        }
    } else if lit_null(s, i) {
        Some((Option::None, i + 4))
    } else {
        None
    }
}

/// After a member's value: a comma continues the object at the next member,
/// a closing brace ends it.  Returns the continuation index and whether the
/// object ended.
pub open spec fn member_sep(s: Seq<char>, v_end: int) -> Option<(int, bool)> {
    if !(0 <= v_end && v_end <= s.len()) {
        None
    } else {
        let n = skip_ws(s, v_end);
        if !(v_end <= n && n < s.len()) {
            None
        } else if s[n] == ',' {
            Some((n + 1, false))
        } else if s[n] == '}' {
            Some((n + 1, true))
        } else {
            None
        }
    }
}

/// One member key together with the index of its value: `i` stands right
/// after the opening brace or a comma; the object may also close right away
/// when no member has been read yet.
pub open spec fn member_key(s: Seq<char>, i: int, first: bool) -> Option<
    Option<(Seq<char>, int)>,
> {
    if !(0 <= i && i <= s.len()) {
        None
    } else {
        let j = skip_ws(s, i);
        if !(i <= j && j < s.len()) {
            None
        } else if first && s[j] == '}' {
            Some(Option::None)
        } else if s[j] == '"' {
            match str_rest(s, j + 1) {
                None => None,
                Some((key, k)) => {
                    if !(j + 1 < k && k <= s.len()) {
                        None
                    } else {
                        let l = skip_ws(s, k);
                        if !(k <= l && l < s.len()) {
                            None
                        } else if s[l] == ':' {
                            let m = skip_ws(s, l + 1);
                            if !(l + 1 <= m && m <= s.len()) {
                                None
                            } else {
                                Some(Some((key, m)))
                            }
                        } else {
                            None
                        }
                    }
                },
            }
        } else {
            None
        }
    }
}

/// Where the object closed right away, the index right after the brace.
pub open spec fn empty_obj_end(s: Seq<char>, i: int) -> int {
    skip_ws(s, i) + 1
}

/// The members of an error detail object, from right after the brace or a
/// comma.
pub open spec fn detail_members(
    s: Seq<char>,
    i: int,
    first: bool,
    code: Option<Seq<char>>,
    message: Option<Seq<char>>,
    target: Option<Option<Seq<char>>>,
) -> Option<(ApiErrorDetailS, int)>
    decreases s.len() - i,
{
    match member_key(s, i, first) {
        None => None,
        Some(Option::None) => finish_detail(code, message, target, empty_obj_end(s, i)),
        Some(Some((key, m))) => {
            if !(i < m && m <= s.len()) {
                None
            } else if key == "code"@ {
                if code is Some {
                    None
                } else {
                    match str_value(s, m) {
                        None => None,
                        Some((v, v_end)) => detail_step(s, m, v_end, Some(v), message, target),
                    }
                }
            } else if key == "message"@ {
                if message is Some {
                    None
                } else {
                    match str_value(s, m) {
                        None => None,
                        Some((v, v_end)) => detail_step(s, m, v_end, code, Some(v), target),
                    }
                }
            } else if key == "target"@ {
                if target is Some {
                    None
                } else {
                    match opt_str_value(s, m) {
                        None => None,
                        Some((v, v_end)) => detail_step(s, m, v_end, code, message, Some(v)),
                    }
                }
            } else {
                match skip_value(s, m) {
                    None => None,
                    Some(v_end) => detail_step(s, m, v_end, code, message, target),
                }
            }
        },
    }
}

/// Continues a detail object after one member's value.
pub open spec fn detail_step(
    s: Seq<char>,
    m: int,
    v_end: int,
    code: Option<Seq<char>>,
    message: Option<Seq<char>>,
    target: Option<Option<Seq<char>>>,
) -> Option<(ApiErrorDetailS, int)>
    decreases s.len() - m,
{
    if !(m < v_end && v_end <= s.len()) {
        None
    } else {
        match member_sep(s, v_end) {
            None => None,
            Some((next, done)) => {
                if done {
                    finish_detail(code, message, target, next)
                } else {
                    detail_members(s, next, false, code, message, target)
                }
            },
        }
    }
}

/// Completes a detail object: both required members must have been seen.
pub open spec fn finish_detail(
    code: Option<Seq<char>>,
    message: Option<Seq<char>>,
    target: Option<Option<Seq<char>>>,
    end: int,
) -> Option<(ApiErrorDetailS, int)> {
    match (code, message) {
        (Some(c), Some(msg)) => Some(
            (ApiErrorDetailS { code: c, message: msg, target: seen(target) }, end),
        ),
        _ => None,
    }
}

/// A list of error details: `i` stands at the opening bracket.
pub open spec fn detail_list(s: Seq<char>, i: int) -> Option<(Seq<ApiErrorDetailS>, int)> {
    if 0 <= i && i < s.len() && s[i] == '[' {
        detail_list_rest(s, i + 1, true, Seq::empty())
    } else {
        None
    }
}

/// The rest of a detail list, from right after the bracket or a comma.
pub open spec fn detail_list_rest(
    s: Seq<char>,
    i: int,
    first: bool,
    acc: Seq<ApiErrorDetailS>,
) -> Option<(Seq<ApiErrorDetailS>, int)>
    decreases s.len() - i,
{
    if !(0 <= i && i <= s.len()) {
        None
    } else {
        let j = skip_ws(s, i);
        if !(i <= j && j < s.len()) {
            None
        } else if first && s[j] == ']' {
            Some((acc, j + 1))
        } else if s[j] == '{' {
            match detail_members(s, j + 1, true, Option::None, Option::None, Option::None) {
                None => None,
                Some((d, d_end)) => {
                    if !(j < d_end && d_end <= s.len()) {
                        None
                    } else {
                        let n = skip_ws(s, d_end);
                        if !(d_end <= n && n < s.len()) {
                            None
                        } else if s[n] == ',' {
                            detail_list_rest(s, n + 1, false, acc.push(d))
                        } else if s[n] == ']' {
                            Some((acc.push(d), n + 1))
                        } else {
                            None
                        }
                    }
                },
            }
        } else {
            None
        }
    }
}

/// A detail-list-or-null value, for the optional `details` member.
pub open spec fn opt_detail_list_value(s: Seq<char>, i: int) -> Option<
    (Option<Seq<ApiErrorDetailS>>, int),
> {
    if !(0 <= i && i < s.len()) {
        None
    } else if s[i] == '[' {
        match detail_list(s, i) {
            Some((ds, j)) => Some((Some(ds), j)),
            None => None,
        }
    } else if lit_null(s, i) {
        Some((Option::None, i + 4))
    } else {
        None
    }
}

/// The members of an error envelope, from right after the brace or a comma.
pub open spec fn api_error_members(
    s: Seq<char>,
    i: int,
    first: bool,
    code: Option<Seq<char>>,
    message: Option<Seq<char>>,
    details: Option<Option<Seq<ApiErrorDetailS>>>,
    request_id: Option<Option<Seq<char>>>,
) -> Option<(ApiErrorS, int)>
    decreases s.len() - i,
{
    match member_key(s, i, first) {
        None => None,
        Some(Option::None) => finish_api_error(
            code,
            message,
            details,
            request_id,
            empty_obj_end(s, i),
        ),
        Some(Some((key, m))) => {
            if !(i < m && m <= s.len()) {
                None
            } else if key == "code"@ {
                if code is Some {
                    None
                } else {
                    match str_value(s, m) {
                        None => None,
                        Some((v, v_end)) => api_error_step(
                            s,
                            m,
                            v_end,
                            Some(v),
                            message,
                            details,
                            request_id,
                        ),
                    }
                }
            } else if key == "message"@ {
                if message is Some {
                    None
                } else {
                    match str_value(s, m) {
                        None => None,
                        Some((v, v_end)) => api_error_step(
                            s,
                            m,
                            v_end,
                            code,
                            Some(v),
                            details,
                            request_id,
                        ),
                    }
                }
            } else if key == "details"@ {
                if details is Some {
                    None
                } else {
                    match opt_detail_list_value(s, m) {
                        None => None,
                        Some((v, v_end)) => api_error_step(
                            s,
                            m,
                            v_end,
                            code,
                            message,
                            Some(v),
                            request_id,
                        ),
                    }
                }
            } else if key == "request_id"@ {
                if request_id is Some {
                    None
                } else {
                    match opt_str_value(s, m) {
                        None => None,
                        Some((v, v_end)) => api_error_step(
                            s,
                            m,
                            v_end,
                            code,
                            message,
                            details,
                            Some(v),
                        ),
                    }
                }
            } else {
                match skip_value(s, m) {
                    None => None,
                    Some(v_end) => api_error_step(s, m, v_end, code, message, details, request_id),
                }
            }
        },
    }
}

/// Continues an error envelope after one member's value.
pub open spec fn api_error_step(
    s: Seq<char>,
    m: int,
    v_end: int,
    code: Option<Seq<char>>,
    message: Option<Seq<char>>,
    details: Option<Option<Seq<ApiErrorDetailS>>>,
    request_id: Option<Option<Seq<char>>>,
) -> Option<(ApiErrorS, int)>
    decreases s.len() - m,
{
    if !(m < v_end && v_end <= s.len()) {
        None
    } else {
        match member_sep(s, v_end) {
            None => None,
            Some((next, done)) => {
                if done {
                    finish_api_error(code, message, details, request_id, next)
                } else {
                    api_error_members(s, next, false, code, message, details, request_id)
                }
            },
        }
    }
}

/// Completes an error envelope: both required members must have been seen.
pub open spec fn finish_api_error(
    code: Option<Seq<char>>,
    message: Option<Seq<char>>,
    details: Option<Option<Seq<ApiErrorDetailS>>>,
    request_id: Option<Option<Seq<char>>>,
    end: int,
) -> Option<(ApiErrorS, int)> {
    match (code, message) {
        (Some(c), Some(msg)) => Some(
            (
                ApiErrorS {
                    code: c,
                    message: msg,
                    details: seen(details),
                    request_id: seen(request_id),
                },
                end,
            ),
        ),
        _ => None,
    }
}

/// A whole error envelope body: one object, surrounded only by whitespace.
pub open spec fn api_error_doc(s: Seq<char>) -> Option<ApiErrorS> {
    let i = skip_ws(s, 0);
    if 0 <= i && i < s.len() && s[i] == '{' {
        match api_error_members(
            s,
            i + 1,
            true,
            Option::None,
            Option::None,
            Option::None,
            Option::None,
        ) {
            None => None,
            Some((e, j)) => {
                if 0 <= j && j <= s.len() && skip_ws(s, j) == s.len() {
                    Some(e)
                } else {
                    None
                }
            },
        }
    } else {
        None
    }
}


/// A list of strings: `i` stands at the opening bracket.
pub open spec fn str_list(s: Seq<char>, i: int) -> Option<(Seq<Seq<char>>, int)> {
    if 0 <= i && i < s.len() && s[i] == '[' {
        str_list_rest(s, i + 1, true, Seq::empty())
    } else {
        None
    }
}

/// The rest of a string list, from right after the bracket or a comma.
pub open spec fn str_list_rest(s: Seq<char>, i: int, first: bool, acc: Seq<Seq<char>>) -> Option<
    (Seq<Seq<char>>, int),
>
    decreases s.len() - i,
{
    if !(0 <= i && i <= s.len()) {
        None
    } else {
        let j = skip_ws(s, i);
        if !(i <= j && j < s.len()) {
            None
        } else if first && s[j] == ']' {
            Some((acc, j + 1))
        } else if s[j] == '"' {
            match str_rest(s, j + 1) {
                None => None,
                Some((t, t_end)) => {
                    if !(j < t_end && t_end <= s.len()) {
                        None
                    } else {
                        let n = skip_ws(s, t_end);
                        if !(t_end <= n && n < s.len()) {
                            None
                        } else if s[n] == ',' {
                            str_list_rest(s, n + 1, false, acc.push(t))
                        } else if s[n] == ']' {
                            Some((acc.push(t), n + 1))
                        } else {
                            None
                        }
                    }
                },
            }
        } else {
            None
        }
    }
}

/// A string-list-or-null value, for the optional `additional_info` member.
pub open spec fn opt_str_list_value(s: Seq<char>, i: int) -> Option<(Option<Seq<Seq<char>>>, int)> {
    if !(0 <= i && i < s.len()) {
        None
    } else if s[i] == '[' {
        match str_list(s, i) {
            Some((ts, j)) => Some((Some(ts), j)),
            None => None,
        }
    } else if lit_null(s, i) {
        Some((Option::None, i + 4))
    } else {
        None
    }
}

/// The members of one `data` entry, from right after the brace or a comma.
pub open spec fn success_members(
    s: Seq<char>,
    i: int,
    first: bool,
    code: Option<Seq<char>>,
    additional_info: Option<Option<Seq<Seq<char>>>>,
    message: Option<Seq<char>>,
) -> Option<(SuccessDataS, int)>
    decreases s.len() - i,
{
    match member_key(s, i, first) {
        None => None,
        Some(Option::None) => finish_success(code, additional_info, message, empty_obj_end(s, i)),
        Some(Some((key, m))) => {
            if !(i < m && m <= s.len()) {
                None
            } else if key == "code"@ {
                if code is Some {
                    None
                } else {
                    match str_value(s, m) {
                        None => None,
                        Some((v, v_end)) => success_step(s, m, v_end, Some(v), additional_info, message),
                    }
                }
            } else if key == "additional_info"@ {
                if additional_info is Some {
                    None
                } else {
                    match opt_str_list_value(s, m) {
                        None => None,
                        Some((v, v_end)) => success_step(s, m, v_end, code, Some(v), message),
                    }
                }
            } else if key == "message"@ {
                if message is Some {
                    None
                } else {
                    match str_value(s, m) {
                        None => None,
                        Some((v, v_end)) => success_step(s, m, v_end, code, additional_info, Some(v)),
                    }
                }
            } else {
                match skip_value(s, m) {
                    None => None,
                    Some(v_end) => success_step(s, m, v_end, code, additional_info, message),
                }
            }
        },
    }
}

/// Continues a `data` entry after one member's value.
pub open spec fn success_step(
    s: Seq<char>,
    m: int,
    v_end: int,
    code: Option<Seq<char>>,
    additional_info: Option<Option<Seq<Seq<char>>>>,
    message: Option<Seq<char>>,
) -> Option<(SuccessDataS, int)>
    decreases s.len() - m,
{
    if !(m < v_end && v_end <= s.len()) {
        None
    } else {
        match member_sep(s, v_end) {
            None => None,
            Some((next, done)) => {
                if done {
                    finish_success(code, additional_info, message, next)
                } else {
                    success_members(s, next, false, code, additional_info, message)
                }
            },
        }
    }
}

/// Completes a `data` entry: both required members must have been seen.
pub open spec fn finish_success(
    code: Option<Seq<char>>,
    additional_info: Option<Option<Seq<Seq<char>>>>,
    message: Option<Seq<char>>,
    end: int,
) -> Option<(SuccessDataS, int)> {
    match (code, message) {
        (Some(c), Some(msg)) => Some(
            (SuccessDataS { code: c, additional_info: seen(additional_info), message: msg }, end),
        ),
        _ => None,
    }
}

/// A list of `data` entries: `i` stands at the opening bracket.
pub open spec fn success_list(s: Seq<char>, i: int) -> Option<(Seq<SuccessDataS>, int)> {
    if 0 <= i && i < s.len() && s[i] == '[' {
        success_list_rest(s, i + 1, true, Seq::empty())
    } else {
        None
    }
}

/// The rest of a `data` list, from right after the bracket or a comma.
pub open spec fn success_list_rest(
    s: Seq<char>,
    i: int,
    first: bool,
    acc: Seq<SuccessDataS>,
) -> Option<(Seq<SuccessDataS>, int)>
    decreases s.len() - i,
{
    if !(0 <= i && i <= s.len()) {
        None
    } else {
        let j = skip_ws(s, i);
        if !(i <= j && j < s.len()) {
            None
        } else if first && s[j] == ']' {
            Some((acc, j + 1))
        } else if s[j] == '{' {
            match success_members(s, j + 1, true, Option::None, Option::None, Option::None) {
                None => None,
                Some((d, d_end)) => {
                    if !(j < d_end && d_end <= s.len()) {
                        None
                    } else {
                        let n = skip_ws(s, d_end);
                        if !(d_end <= n && n < s.len()) {
                            None
                        } else if s[n] == ',' {
                            success_list_rest(s, n + 1, false, acc.push(d))
                        } else if s[n] == ']' {
                            Some((acc.push(d), n + 1))
                        } else {
                            None
                        }
                    }
                },
            }
        } else {
            None
        }
    }
}

/// The members of a success envelope, from right after the brace or a comma.
pub open spec fn api_response_members(
    s: Seq<char>,
    i: int,
    first: bool,
    data: Option<Seq<SuccessDataS>>,
    message: Option<Seq<char>>,
    request_id: Option<Seq<char>>,
    object: Option<Option<Seq<char>>>,
) -> Option<(ApiResponseS, int)>
    decreases s.len() - i,
{
    match member_key(s, i, first) {
        None => None,
        Some(Option::None) => finish_api_response(
            data,
            message,
            request_id,
            object,
            empty_obj_end(s, i),
        ),
        Some(Some((key, m))) => {
            if !(i < m && m <= s.len()) {
                None
            } else if key == "data"@ {
                if data is Some {
                    None
                } else if !(m < s.len() && s[m] == '[') {
                    None
                } else {
                    match success_list(s, m) {
                        None => None,
                        Some((v, v_end)) => api_response_step(
                            s,
                            m,
                            v_end,
                            Some(v),
                            message,
                            request_id,
                            object,
                        ),
                    }
                }
            } else if key == "message"@ {
                if message is Some {
                    None
                } else {
                    match str_value(s, m) {
                        None => None,
                        Some((v, v_end)) => api_response_step(
                            s,
                            m,
                            v_end,
                            data,
                            Some(v),
                            request_id,
                            object,
                        ),
                    }
                }
            } else if key == "request_id"@ {
                if request_id is Some {
                    None
                } else {
                    match str_value(s, m) {
                        None => None,
                        Some((v, v_end)) => api_response_step(
                            s,
                            m,
                            v_end,
                            data,
                            message,
                            Some(v),
                            object,
                        ),
                    }
                }
            } else if key == "object"@ {
                if object is Some {
                    None
                } else {
                    match opt_str_value(s, m) {
                        None => None,
                        Some((v, v_end)) => api_response_step(
                            s,
                            m,
                            v_end,
                            data,
                            message,
                            request_id,
                            Some(v),
                        ),
                    }
                }
            } else {
                match skip_value(s, m) {
                    None => None,
                    Some(v_end) => api_response_step(
                        s,
                        m,
                        v_end,
                        data,
                        message,
                        request_id,
                        object,
                    ),
                }
            }
        },
    }
}

/// Continues a success envelope after one member's value.
pub open spec fn api_response_step(
    s: Seq<char>,
    m: int,
    v_end: int,
    data: Option<Seq<SuccessDataS>>,
    message: Option<Seq<char>>,
    request_id: Option<Seq<char>>,
    object: Option<Option<Seq<char>>>,
) -> Option<(ApiResponseS, int)>
    decreases s.len() - m,
{
    if !(m < v_end && v_end <= s.len()) {
        None
    } else {
        match member_sep(s, v_end) {
            None => None,
            Some((next, done)) => {
                if done {
                    finish_api_response(data, message, request_id, object, next)
                } else {
                    api_response_members(s, next, false, data, message, request_id, object)
                }
            },
        }
    }
}

/// Completes a success envelope: the three required members must have been
/// seen.
pub open spec fn finish_api_response(
    data: Option<Seq<SuccessDataS>>,
    message: Option<Seq<char>>,
    request_id: Option<Seq<char>>,
    object: Option<Option<Seq<char>>>,
    end: int,
) -> Option<(ApiResponseS, int)> {
    match (data, message, request_id) {
        (Some(d), Some(msg), Some(rid)) => Some(
            (ApiResponseS { data: d, message: msg, request_id: rid, object: seen(object) }, end),
        ),
        _ => None,
    }
}

/// A whole success envelope body: one object, surrounded only by whitespace.
pub open spec fn api_response_doc(s: Seq<char>) -> Option<ApiResponseS> {
    let i = skip_ws(s, 0);
    if 0 <= i && i < s.len() && s[i] == '{' {
        match api_response_members(
            s,
            i + 1,
            true,
            Option::None,
            Option::None,
            Option::None,
            Option::None,
        ) {
            None => None,
            Some((e, j)) => {
                if 0 <= j && j <= s.len() && skip_ws(s, j) == s.len() {
                    Some(e)
                } else {
                    None
                }
            },
        }
    } else {
        None
    }
}

/// The members of an upload envelope, from right after the brace or a comma.
pub open spec fn upload_members(
    s: Seq<char>,
    i: int,
    first: bool,
    file_cache_key: Option<Seq<char>>,
    message: Option<Seq<char>>,
    code: Option<Seq<char>>,
) -> Option<(FileUploadResponseS, int)>
    decreases s.len() - i,
{
    match member_key(s, i, first) {
        None => None,
        Some(Option::None) => finish_upload(file_cache_key, message, code, empty_obj_end(s, i)),
        Some(Some((key, m))) => {
            if !(i < m && m <= s.len()) {
                None
            } else if key == "file_cache_key"@ {
                if file_cache_key is Some {
                    None
                } else {
                    match str_value(s, m) {
                        None => None,
                        Some((v, v_end)) => upload_step(s, m, v_end, Some(v), message, code),
                    }
                }
            } else if key == "message"@ {
                if message is Some {
                    None
                } else {
                    match str_value(s, m) {
                        None => None,
                        Some((v, v_end)) => upload_step(s, m, v_end, file_cache_key, Some(v), code),
                    }
                }
            } else if key == "code"@ {
                if code is Some {
                    None
                } else {
                    match str_value(s, m) {
                        None => None,
                        Some((v, v_end)) => upload_step(
                            s,
                            m,
                            v_end,
                            file_cache_key,
                            message,
                            Some(v),
                        ),
                    }
                }
            } else {
                match skip_value(s, m) {
                    None => None,
                    Some(v_end) => upload_step(s, m, v_end, file_cache_key, message, code),
                }
            }
        },
    }
}

/// Continues an upload envelope after one member's value.
pub open spec fn upload_step(
    s: Seq<char>,
    m: int,
    v_end: int,
    file_cache_key: Option<Seq<char>>,
    message: Option<Seq<char>>,
    code: Option<Seq<char>>,
) -> Option<(FileUploadResponseS, int)>
    decreases s.len() - m,
{
    if !(m < v_end && v_end <= s.len()) {
        None
    } else {
        match member_sep(s, v_end) {
            None => None,
            Some((next, done)) => {
                if done {
                    finish_upload(file_cache_key, message, code, next)
                } else {
                    upload_members(s, next, false, file_cache_key, message, code)
                }
            },
        }
    }
}

/// Completes an upload envelope: all three members must have been seen.
pub open spec fn finish_upload(
    file_cache_key: Option<Seq<char>>,
    message: Option<Seq<char>>,
    code: Option<Seq<char>>,
    end: int,
) -> Option<(FileUploadResponseS, int)> {
    match (file_cache_key, message, code) {
        (Some(k), Some(msg), Some(c)) => Some(
            (FileUploadResponseS { file_cache_key: k, message: msg, code: c }, end),
        ),
        _ => None,
    }
}

/// A whole upload envelope body: one object, surrounded only by whitespace.
pub open spec fn upload_doc(s: Seq<char>) -> Option<FileUploadResponseS> {
    let i = skip_ws(s, 0);
    if 0 <= i && i < s.len() && s[i] == '{' {
        match upload_members(s, i + 1, true, Option::None, Option::None, Option::None) {
            None => None,
            Some((e, j)) => {
                if 0 <= j && j <= s.len() && skip_ws(s, j) == s.len() {
                    Some(e)
                } else {
                    None
                }
            },
        }
    } else {
        None
    }
}


/// The mathematical value an optional string holds.
pub open spec fn abs_opt_str(o: Option<String>) -> Option<Seq<char>> {
    match o {
        Option::None => Option::None,
        Option::Some(x) => Some(x@),
    }
}

/// The mathematical value an accumulated optional string member holds.
pub open spec fn abs_opt_opt_str(o: Option<Option<String>>) -> Option<Option<Seq<char>>> {
    match o {
        Option::None => Option::None,
        Option::Some(x) => Some(abs_opt_str(x)),
    }
}

/// The mathematical value of a detail entry.
pub open spec fn abs_detail(d: ApiErrorDetail) -> ApiErrorDetailS {
    ApiErrorDetailS { code: d.code@, message: d.message@, target: abs_opt_str(d.target) }
}

/// The mathematical value of a list of detail entries.
pub open spec fn abs_detail_seq(v: Seq<ApiErrorDetail>) -> Seq<ApiErrorDetailS> {
    v.map_values(|d: ApiErrorDetail| abs_detail(d))
}

/// The mathematical value an optional detail list holds.
pub open spec fn abs_opt_details(o: Option<Vec<ApiErrorDetail>>) -> Option<Seq<ApiErrorDetailS>> {
    match o {
        Option::None => Option::None,
        Option::Some(v) => Some(abs_detail_seq(v@)),
    }
}

/// The mathematical value an accumulated optional detail member holds.
pub open spec fn abs_opt_opt_details(o: Option<Option<Vec<ApiErrorDetail>>>) -> Option<
    Option<Seq<ApiErrorDetailS>>,
> {
    match o {
        Option::None => Option::None,
        Option::Some(x) => Some(abs_opt_details(x)),
    }
}

/// The mathematical value of an error envelope.
pub open spec fn abs_api_error(e: ApiError) -> ApiErrorS {
    ApiErrorS {
        code: e.code@,
        message: e.message@,
        details: abs_opt_details(e.details),
        request_id: abs_opt_str(e.request_id),
    }
}

/// The mathematical value of a list of strings.
pub open spec fn abs_str_seq(v: Seq<String>) -> Seq<Seq<char>> {
    v.map_values(|x: String| x@)
}

/// The mathematical value an optional string list holds.
pub open spec fn abs_opt_strs(o: Option<Vec<String>>) -> Option<Seq<Seq<char>>> {
    match o {
        Option::None => Option::None,
        Option::Some(v) => Some(abs_str_seq(v@)),
    }
}

/// The mathematical value an accumulated optional string-list member holds.
pub open spec fn abs_opt_opt_strs(o: Option<Option<Vec<String>>>) -> Option<
    Option<Seq<Seq<char>>>,
> {
    match o {
        Option::None => Option::None,
        Option::Some(x) => Some(abs_opt_strs(x)),
    }
}

/// The mathematical value of one `data` entry.
pub open spec fn abs_success(d: SuccessData) -> SuccessDataS {
    SuccessDataS {
        code: d.code@,
        additional_info: abs_opt_strs(d.additional_info),
        message: d.message@,
    }
}

/// The mathematical value of a list of `data` entries.
pub open spec fn abs_success_seq(v: Seq<SuccessData>) -> Seq<SuccessDataS> {
    v.map_values(|d: SuccessData| abs_success(d))
}

/// The mathematical value an accumulated `data` member holds.
pub open spec fn abs_opt_successes(o: Option<Vec<SuccessData>>) -> Option<Seq<SuccessDataS>> {
    match o {
        Option::None => Option::None,
        Option::Some(v) => Some(abs_success_seq(v@)),
    }
}

/// The mathematical value of a success envelope.
pub open spec fn abs_api_response(r: ApiResponse) -> ApiResponseS {
    ApiResponseS {
        data: abs_success_seq(r.data@),
        message: r.message@,
        request_id: r.request_id@,
        object: abs_opt_str(r.object),
    }
}

/// The mathematical value of an upload envelope.
pub open spec fn abs_upload(u: FileUploadResponse) -> FileUploadResponseS {
    FileUploadResponseS { file_cache_key: u.file_cache_key@, message: u.message@, code: u.code@ }
}

/// Whether a parsed key is the given member name.
fn key_is(key: &String, name: &str) -> (r: bool)
    ensures
        r == (key@ == name@),
{
    let n = String::from_str(name);
    *key == n
}

/// An accumulated optional member collapsed on completion.
fn collapse<A>(o: Option<Option<A>>) -> (r: Option<A>)
    ensures
        r == match o {
            Option::None => Option::<A>::None,
            Option::Some(x) => x,
        },
{
    match o {
        Option::None => Option::None,
        Option::Some(x) => x,
    }
}

/// A string value, executably.
fn str_value_x(s: &Vec<char>, i: usize) -> (r: Option<(String, usize)>)
    requires
        i <= s@.len(),
    ensures
        match r {
            Some(p) => str_value(s@, i as int) matches Some(q) && q.0 == p.0@ && q.1 == p.1 as int
                && i < p.1 <= s@.len(),
            None => str_value(s@, i as int) is None,
        },
{
    if i < s.len() && s[i] == '"' {
        str_rest_x(s, i + 1)
    } else {
        None
    }
}

/// A string-or-null value, executably.
fn opt_str_value_x(s: &Vec<char>, i: usize) -> (r: Option<(Option<String>, usize)>)
    requires
        i <= s@.len(),
    ensures
        match r {
            Some(p) => opt_str_value(s@, i as int) matches Some(q) && q.0 == abs_opt_str(p.0)
                && q.1 == p.1 as int && i < p.1 <= s@.len(),
            None => opt_str_value(s@, i as int) is None,
        },
{
    if i >= s.len() {
        return None;
    }
    if s[i] == '"' {
        match str_rest_x(s, i + 1) {
            Some((t, j)) => Some((Some(t), j)),
            None => None,
        }
    } else if lit_null_x(s, i) {
        Some((None, i + 4))
    } else {
        None
    }
}

/// A member separator, executably.
fn member_sep_x(s: &Vec<char>, v_end: usize) -> (r: Option<(usize, bool)>)
    requires
        v_end <= s@.len(),
    ensures
        match r {
            Some(p) => member_sep(s@, v_end as int) == Some((p.0 as int, p.1)) && v_end < p.0
                <= s@.len(),
            None => member_sep(s@, v_end as int) is None,
        },
{
    let n = skip_ws_x(s, v_end);
    if n >= s.len() {
        return None;
    }
    if s[n] == ',' {
        Some((n + 1, false))
    } else if s[n] == '}' {
        Some((n + 1, true))
    } else {
        None
    }
}

/// A member key and its value's index, executably.
fn member_key_x(s: &Vec<char>, i: usize, first: bool) -> (r: Option<Option<(String, usize)>>)
    requires
        i <= s@.len(),
    ensures
        match r {
            None => member_key(s@, i as int, first) is None,
            Some(ko) => match ko {
                Option::None => member_key(s@, i as int, first) == Some(
                    Option::<(Seq<char>, int)>::None,
                ) && empty_obj_end(s@, i as int) <= s@.len(),
                Option::Some(p) => member_key(s@, i as int, first) matches Some(q) && q matches Some(
                    qq,
                ) && qq.0 == p.0@ && qq.1 == p.1 as int && i < p.1 <= s@.len(),
            },
        },
{
    let j = skip_ws_x(s, i);
    if j >= s.len() {
        return None;
    }
    if first && s[j] == '}' {
        return Some(None);
    }
    if s[j] != '"' {
        return None;
    }
    match str_rest_x(s, j + 1) {
        None => None,
        Some((key, k)) => {
            let l = skip_ws_x(s, k);
            if l >= s.len() {
                return None;
            }
            if s[l] != ':' {
                return None;
            }
            let m = skip_ws_x(s, l + 1);
            Some(Some((key, m)))
        },
    }
}

/// Completes a detail object, executably.
fn finish_detail_x(
    code: Option<String>,
    message: Option<String>,
    target: Option<Option<String>>,
    end: usize,
) -> (r: Option<(ApiErrorDetail, usize)>)
    ensures
        match r {
            Some(p) => finish_detail(
                abs_opt_str(code),
                abs_opt_str(message),
                abs_opt_opt_str(target),
                end as int,
            ) matches Some(q) && q.0 == abs_detail(p.0) && q.1 == p.1 as int && p.1 == end,
            None => finish_detail(
                abs_opt_str(code),
                abs_opt_str(message),
                abs_opt_opt_str(target),
                end as int,
            ) is None,
        },
{
    match (code, message) {
        (Some(c), Some(m)) => Some(
            (ApiErrorDetail { code: c, message: m, target: collapse(target) }, end),
        ),
        _ => None,
    }
}

/// The members of a detail object, executably.
fn detail_members_x(
    s: &Vec<char>,
    i: usize,
    first: bool,
    code: Option<String>,
    message: Option<String>,
    target: Option<Option<String>>,
) -> (r: Option<(ApiErrorDetail, usize)>)
    requires
        i <= s@.len(),
    ensures
        ({
            let sp = detail_members(
                s@,
                i as int,
                first,
                abs_opt_str(code),
                abs_opt_str(message),
                abs_opt_opt_str(target),
            );
            match r {
                Some(p) => sp matches Some(q) && q.0 == abs_detail(p.0) && q.1 == p.1 as int && i
                    < p.1 <= s@.len(),
                None => sp is None,
            }
        }),
    decreases s@.len() - i,
{
    match member_key_x(s, i, first) {
        None => None,
        Some(None) => {
            proof {
                vstd::std_specs::vec::axiom_spec_len(s);
                assert(empty_obj_end(s@, i as int) <= s@.len());
            }
            let e = skip_ws_x(s, i);
            finish_detail_x(code, message, target, e + 1)
        },
        Some(Some((key, m))) => {
            if key_is(&key, "code") {
                if code.is_some() {
                    return None;
                }
                match str_value_x(s, m) {
                    None => None,
                    Some((v, v_end)) => detail_step_x(s, m, v_end, Some(v), message, target),
                }
            } else if key_is(&key, "message") {
                if message.is_some() {
                    return None;
                }
                match str_value_x(s, m) {
                    None => None,
                    Some((v, v_end)) => detail_step_x(s, m, v_end, code, Some(v), target),
                }
            } else if key_is(&key, "target") {
                if target.is_some() {
                    return None;
                }
                match opt_str_value_x(s, m) {
                    None => None,
                    Some((v, v_end)) => detail_step_x(s, m, v_end, code, message, Some(v)),
                }
            } else {
                match skip_value_x(s, m) {
                    None => None,
                    Some(v_end) => detail_step_x(s, m, v_end, code, message, target),
                }
            }
        },
    }
}

/// Continues a detail object after one member's value, executably.
fn detail_step_x(
    s: &Vec<char>,
    m: usize,
    v_end: usize,
    code: Option<String>,
    message: Option<String>,
    target: Option<Option<String>>,
) -> (r: Option<(ApiErrorDetail, usize)>)
    requires
        m < v_end <= s@.len(),
    ensures
        ({
            let sp = detail_step(
                s@,
                m as int,
                v_end as int,
                abs_opt_str(code),
                abs_opt_str(message),
                abs_opt_opt_str(target),
            );
            match r {
                Some(p) => sp matches Some(q) && q.0 == abs_detail(p.0) && q.1 == p.1 as int && m
                    < p.1 <= s@.len(),
                None => sp is None,
            }
        }),
    decreases s@.len() - m,
{
    match member_sep_x(s, v_end) {
        None => None,
        Some((next, done)) => {
            if done {
                finish_detail_x(code, message, target, next)
            } else {
                detail_members_x(s, next, false, code, message, target)
            }
        },
    }
}

/// A detail list, executably.
fn detail_list_x(s: &Vec<char>, i: usize) -> (r: Option<(Vec<ApiErrorDetail>, usize)>)
    requires
        i <= s@.len(),
    ensures
        match r {
            Some(p) => detail_list(s@, i as int) matches Some(q) && q.0 == abs_detail_seq(p.0@)
                && q.1 == p.1 as int && i < p.1 <= s@.len(),
            None => detail_list(s@, i as int) is None,
        },
{
    if i < s.len() && s[i] == '[' {
        let r = detail_list_rest_x(s, i + 1, true, Vec::new());
        proof {
            assert(abs_detail_seq(Seq::<ApiErrorDetail>::empty()) =~= Seq::<
                ApiErrorDetailS,
            >::empty());
        }
        r
    } else {
        None
    }
}

/// The rest of a detail list, executably.
fn detail_list_rest_x(s: &Vec<char>, i: usize, first: bool, acc: Vec<ApiErrorDetail>) -> (r: Option<
    (Vec<ApiErrorDetail>, usize),
>)
    requires
        i <= s@.len(),
    ensures
        ({
            let sp = detail_list_rest(s@, i as int, first, abs_detail_seq(acc@));
            match r {
                Some(p) => sp matches Some(q) && q.0 == abs_detail_seq(p.0@) && q.1 == p.1 as int
                    && i < p.1 <= s@.len(),
                None => sp is None,
            }
        }),
    decreases s@.len() - i,
{
    let ghost acc0 = acc@;
    let mut acc = acc;
    let j = skip_ws_x(s, i);
    if j >= s.len() {
        return None;
    }
    if first && s[j] == ']' {
        return Some((acc, j + 1));
    }
    if s[j] != '{' {
        return None;
    }
    match detail_members_x(s, j + 1, true, None, None, None) {
        None => None,
        Some((d, d_end)) => {
            let n = skip_ws_x(s, d_end);
            if n >= s.len() {
                return None;
            }
            if s[n] == ',' {
                let ghost dd = abs_detail(d);
                acc.push(d);
                proof {
                    assert(abs_detail_seq(acc@) =~= abs_detail_seq(acc0).push(dd));
                }
                detail_list_rest_x(s, n + 1, false, acc)
            } else if s[n] == ']' {
                let ghost dd = abs_detail(d);
                acc.push(d);
                proof {
                    assert(abs_detail_seq(acc@) =~= abs_detail_seq(acc0).push(dd));
                }
                Some((acc, n + 1))
            } else {
                None
            }
        },
    }
}

/// A detail-list-or-null value, executably.
fn opt_detail_list_value_x(s: &Vec<char>, i: usize) -> (r: Option<
    (Option<Vec<ApiErrorDetail>>, usize),
>)
    requires
        i <= s@.len(),
    ensures
        match r {
            Some(p) => opt_detail_list_value(s@, i as int) matches Some(q) && q.0
                == abs_opt_details(p.0) && q.1 == p.1 as int && i < p.1 <= s@.len(),
            None => opt_detail_list_value(s@, i as int) is None,
        },
{
    if i >= s.len() {
        return None;
    }
    if s[i] == '[' {
        match detail_list_x(s, i) {
            Some((ds, j)) => Some((Some(ds), j)),
            None => None,
        }
    } else if lit_null_x(s, i) {
        Some((None, i + 4))
    } else {
        None
    }
}

/// Completes an error envelope, executably.
fn finish_api_error_x(
    code: Option<String>,
    message: Option<String>,
    details: Option<Option<Vec<ApiErrorDetail>>>,
    request_id: Option<Option<String>>,
    end: usize,
) -> (r: Option<(ApiError, usize)>)
    ensures
        ({
            let sp = finish_api_error(
                abs_opt_str(code),
                abs_opt_str(message),
                abs_opt_opt_details(details),
                abs_opt_opt_str(request_id),
                end as int,
            );
            match r {
                Some(p) => sp matches Some(q) && q.0 == abs_api_error(p.0) && q.1 == p.1 as int
                    && p.1 == end,
                None => sp is None,
            }
        }),
{
    match (code, message) {
        (Some(c), Some(m)) => Some(
            (
                ApiError {
                    code: c,
                    message: m,
                    details: collapse(details),
                    request_id: collapse(request_id),
                },
                end,
            ),
        ),
        _ => None,
    }
}

/// The members of an error envelope, executably.
fn api_error_members_x(
    s: &Vec<char>,
    i: usize,
    first: bool,
    code: Option<String>,
    message: Option<String>,
    details: Option<Option<Vec<ApiErrorDetail>>>,
    request_id: Option<Option<String>>,
) -> (r: Option<(ApiError, usize)>)
    requires
        i <= s@.len(),
    ensures
        ({
            let sp = api_error_members(
                s@,
                i as int,
                first,
                abs_opt_str(code),
                abs_opt_str(message),
                abs_opt_opt_details(details),
                abs_opt_opt_str(request_id),
            );
            match r {
                Some(p) => sp matches Some(q) && q.0 == abs_api_error(p.0) && q.1 == p.1 as int
                    && i < p.1 <= s@.len(),
                None => sp is None,
            }
        }),
    decreases s@.len() - i,
{
    match member_key_x(s, i, first) {
        None => None,
        Some(None) => {
            proof {
                vstd::std_specs::vec::axiom_spec_len(s);
                assert(empty_obj_end(s@, i as int) <= s@.len());
            }
            let e = skip_ws_x(s, i);
            finish_api_error_x(code, message, details, request_id, e + 1)
        },
        Some(Some((key, m))) => {
            if key_is(&key, "code") {
                if code.is_some() {
                    return None;
                }
                match str_value_x(s, m) {
                    None => None,
                    Some((v, v_end)) => api_error_step_x(
                        s,
                        m,
                        v_end,
                        Some(v),
                        message,
                        details,
                        request_id,
                    ),
                }
            } else if key_is(&key, "message") {
                if message.is_some() {
                    return None;
                }
                match str_value_x(s, m) {
                    None => None,
                    Some((v, v_end)) => api_error_step_x(
                        s,
                        m,
                        v_end,
                        code,
                        Some(v),
                        details,
                        request_id,
                    ),
                }
            } else if key_is(&key, "details") {
                if details.is_some() {
                    return None;
                }
                match opt_detail_list_value_x(s, m) {
                    None => None,
                    Some((v, v_end)) => api_error_step_x(
                        s,
                        m,
                        v_end,
                        code,
                        message,
                        Some(v),
                        request_id,
                    ),
                }
            } else if key_is(&key, "request_id") {
                if request_id.is_some() {
                    return None;
                }
                match opt_str_value_x(s, m) {
                    None => None,
                    Some((v, v_end)) => api_error_step_x(
                        s,
                        m,
                        v_end,
                        code,
                        message,
                        details,
                        Some(v),
                    ),
                }
            } else {
                match skip_value_x(s, m) {
                    None => None,
                    Some(v_end) => api_error_step_x(
                        s,
                        m,
                        v_end,
                        code,
                        message,
                        details,
                        request_id,
                    ),
                }
            }
        },
    }
}

/// Continues an error envelope after one member's value, executably.
fn api_error_step_x(
    s: &Vec<char>,
    m: usize,
    v_end: usize,
    code: Option<String>,
    message: Option<String>,
    details: Option<Option<Vec<ApiErrorDetail>>>,
    request_id: Option<Option<String>>,
) -> (r: Option<(ApiError, usize)>)
    requires
        m < v_end <= s@.len(),
    ensures
        ({
            let sp = api_error_step(
                s@,
                m as int,
                v_end as int,
                abs_opt_str(code),
                abs_opt_str(message),
                abs_opt_opt_details(details),
                abs_opt_opt_str(request_id),
            );
            match r {
                Some(p) => sp matches Some(q) && q.0 == abs_api_error(p.0) && q.1 == p.1 as int
                    && m < p.1 <= s@.len(),
                None => sp is None,
            }
        }),
    decreases s@.len() - m,
{
    match member_sep_x(s, v_end) {
        None => None,
        Some((next, done)) => {
            if done {
                finish_api_error_x(code, message, details, request_id, next)
            } else {
                api_error_members_x(s, next, false, code, message, details, request_id)
            }
        },
    }
}

/// Reads a whole error envelope body: the typed error exactly when the body
/// is a syntactically valid error envelope.
pub fn parse_api_error_body(body: &str) -> (r: Option<ApiError>)
    ensures
        match r {
            Some(e) => api_error_doc(body@) == Some(abs_api_error(e)),
            None => api_error_doc(body@) is None,
        },
{
    let s = str_to_chars(body);
    let i = skip_ws_x(&s, 0);
    if i >= s.len() {
        return None;
    }
    if s[i] != '{' {
        return None;
    }
    match api_error_members_x(&s, i + 1, true, None, None, None, None) {
        None => None,
        Some((e, j)) => {
            let k = skip_ws_x(&s, j);
            if k == s.len() {
                Some(e)
            } else {
                None
            }
        },
    }
}


/// A string list, executably.
fn str_list_x(s: &Vec<char>, i: usize) -> (r: Option<(Vec<String>, usize)>)
    requires
        i <= s@.len(),
    ensures
        match r {
            Some(p) => str_list(s@, i as int) matches Some(q) && q.0 == abs_str_seq(p.0@) && q.1
                == p.1 as int && i < p.1 <= s@.len(),
            None => str_list(s@, i as int) is None,
        },
{
    if i < s.len() && s[i] == '[' {
        let r = str_list_rest_x(s, i + 1, true, Vec::new());
        proof {
            assert(abs_str_seq(Seq::<String>::empty()) =~= Seq::<Seq<char>>::empty());
        }
        r
    } else {
        None
    }
}

/// The rest of a string list, executably.
fn str_list_rest_x(s: &Vec<char>, i: usize, first: bool, acc: Vec<String>) -> (r: Option<
    (Vec<String>, usize),
>)
    requires
        i <= s@.len(),
    ensures
        ({
            let sp = str_list_rest(s@, i as int, first, abs_str_seq(acc@));
            match r {
                Some(p) => sp matches Some(q) && q.0 == abs_str_seq(p.0@) && q.1 == p.1 as int && i
                    < p.1 <= s@.len(),
                None => sp is None,
            }
        }),
    decreases s@.len() - i,
{
    let ghost acc0 = acc@;
    let mut acc = acc;
    let j = skip_ws_x(s, i);
    if j >= s.len() {
        return None;
    }
    if first && s[j] == ']' {
        return Some((acc, j + 1));
    }
    if s[j] != '"' {
        return None;
    }
    match str_rest_x(s, j + 1) {
        None => None,
        Some((t, t_end)) => {
            let n = skip_ws_x(s, t_end);
            if n >= s.len() {
                return None;
            }
            if s[n] == ',' {
                let ghost tt = t@;
                acc.push(t);
                proof {
                    assert(abs_str_seq(acc@) =~= abs_str_seq(acc0).push(tt));
                }
                str_list_rest_x(s, n + 1, false, acc)
            } else if s[n] == ']' {
                let ghost tt = t@;
                acc.push(t);
                proof {
                    assert(abs_str_seq(acc@) =~= abs_str_seq(acc0).push(tt));
                }
                Some((acc, n + 1))
            } else {
                None
            }
        },
    }
}

/// A string-list-or-null value, executably.
fn opt_str_list_value_x(s: &Vec<char>, i: usize) -> (r: Option<(Option<Vec<String>>, usize)>)
    requires
        i <= s@.len(),
    ensures
        match r {
            Some(p) => opt_str_list_value(s@, i as int) matches Some(q) && q.0 == abs_opt_strs(p.0)
                && q.1 == p.1 as int && i < p.1 <= s@.len(),
            None => opt_str_list_value(s@, i as int) is None,
        },
{
    if i >= s.len() {
        return None;
    }
    if s[i] == '[' {
        match str_list_x(s, i) {
            Some((ts, j)) => Some((Some(ts), j)),
            None => None,
        }
    } else if lit_null_x(s, i) {
        Some((None, i + 4))
    } else {
        None
    }
}

/// Completes a `data` entry, executably.
fn finish_success_x(
    code: Option<String>,
    additional_info: Option<Option<Vec<String>>>,
    message: Option<String>,
    end: usize,
) -> (r: Option<(SuccessData, usize)>)
    ensures
        ({
            let sp = finish_success(
                abs_opt_str(code),
                abs_opt_opt_strs(additional_info),
                abs_opt_str(message),
                end as int,
            );
            match r {
                Some(p) => sp matches Some(q) && q.0 == abs_success(p.0) && q.1 == p.1 as int
                    && p.1 == end,
                None => sp is None,
            }
        }),
{
    match (code, message) {
        (Some(c), Some(m)) => Some(
            (SuccessData { code: c, additional_info: collapse(additional_info), message: m }, end),
        ),
        _ => None,
    }
}

/// The members of one `data` entry, executably.
fn success_members_x(
    s: &Vec<char>,
    i: usize,
    first: bool,
    code: Option<String>,
    additional_info: Option<Option<Vec<String>>>,
    message: Option<String>,
) -> (r: Option<(SuccessData, usize)>)
    requires
        i <= s@.len(),
    ensures
        ({
            let sp = success_members(
                s@,
                i as int,
                first,
                abs_opt_str(code),
                abs_opt_opt_strs(additional_info),
                abs_opt_str(message),
            );
            match r {
                Some(p) => sp matches Some(q) && q.0 == abs_success(p.0) && q.1 == p.1 as int && i
                    < p.1 <= s@.len(),
                None => sp is None,
            }
        }),
    decreases s@.len() - i,
{
    match member_key_x(s, i, first) {
        None => None,
        Some(None) => {
            proof {
                vstd::std_specs::vec::axiom_spec_len(s);
                assert(empty_obj_end(s@, i as int) <= s@.len());
            }
            let e = skip_ws_x(s, i);
            finish_success_x(code, additional_info, message, e + 1)
        },
        Some(Some((key, m))) => {
            if key_is(&key, "code") {
                if code.is_some() {
                    return None;
                }
                match str_value_x(s, m) {
                    None => None,
                    Some((v, v_end)) => success_step_x(s, m, v_end, Some(v), additional_info, message),
                }
            } else if key_is(&key, "additional_info") {
                if additional_info.is_some() {
                    return None;
                }
                match opt_str_list_value_x(s, m) {
                    None => None,
                    Some((v, v_end)) => success_step_x(s, m, v_end, code, Some(v), message),
                }
            } else if key_is(&key, "message") {
                if message.is_some() {
                    return None;
                }
                match str_value_x(s, m) {
                    None => None,
                    Some((v, v_end)) => success_step_x(s, m, v_end, code, additional_info, Some(v)),
                }
            } else {
                match skip_value_x(s, m) {
                    None => None,
                    Some(v_end) => success_step_x(s, m, v_end, code, additional_info, message),
                }
            }
        },
    }
}

/// Continues a `data` entry after one member's value, executably.
fn success_step_x(
    s: &Vec<char>,
    m: usize,
    v_end: usize,
    code: Option<String>,
    additional_info: Option<Option<Vec<String>>>,
    message: Option<String>,
) -> (r: Option<(SuccessData, usize)>)
    requires
        m < v_end <= s@.len(),
    ensures
        ({
            let sp = success_step(
                s@,
                m as int,
                v_end as int,
                abs_opt_str(code),
                abs_opt_opt_strs(additional_info),
                abs_opt_str(message),
            );
            match r {
                Some(p) => sp matches Some(q) && q.0 == abs_success(p.0) && q.1 == p.1 as int && m
                    < p.1 <= s@.len(),
                None => sp is None,
            }
        }),
    decreases s@.len() - m,
{
    match member_sep_x(s, v_end) {
        None => None,
        Some((next, done)) => {
            if done {
                finish_success_x(code, additional_info, message, next)
            } else {
                success_members_x(s, next, false, code, additional_info, message)
            }
        },
    }
}

/// A `data` list, executably.
fn success_list_x(s: &Vec<char>, i: usize) -> (r: Option<(Vec<SuccessData>, usize)>)
    requires
        i <= s@.len(),
    ensures
        match r {
            Some(p) => success_list(s@, i as int) matches Some(q) && q.0 == abs_success_seq(p.0@)
                && q.1 == p.1 as int && i < p.1 <= s@.len(),
            None => success_list(s@, i as int) is None,
        },
{
    if i < s.len() && s[i] == '[' {
        let r = success_list_rest_x(s, i + 1, true, Vec::new());
        proof {
            assert(abs_success_seq(Seq::<SuccessData>::empty()) =~= Seq::<SuccessDataS>::empty());
        }
        r
    } else {
        None
    }
}

/// The rest of a `data` list, executably.
fn success_list_rest_x(s: &Vec<char>, i: usize, first: bool, acc: Vec<SuccessData>) -> (r: Option<
    (Vec<SuccessData>, usize),
>)
    requires
        i <= s@.len(),
    ensures
        ({
            let sp = success_list_rest(s@, i as int, first, abs_success_seq(acc@));
            match r {
                Some(p) => sp matches Some(q) && q.0 == abs_success_seq(p.0@) && q.1 == p.1 as int
                    && i < p.1 <= s@.len(),
                None => sp is None,
            }
        }),
    decreases s@.len() - i,
{
    let ghost acc0 = acc@;
    let mut acc = acc;
    let j = skip_ws_x(s, i);
    if j >= s.len() {
        return None;
    }
    if first && s[j] == ']' {
        return Some((acc, j + 1));
    }
    if s[j] != '{' {
        return None;
    }
    match success_members_x(s, j + 1, true, None, None, None) {
        None => None,
        Some((d, d_end)) => {
            let n = skip_ws_x(s, d_end);
            if n >= s.len() {
                return None;
            }
            if s[n] == ',' {
                let ghost dd = abs_success(d);
                acc.push(d);
                proof {
                    assert(abs_success_seq(acc@) =~= abs_success_seq(acc0).push(dd));
                }
                success_list_rest_x(s, n + 1, false, acc)
            } else if s[n] == ']' {
                let ghost dd = abs_success(d);
                acc.push(d);
                proof {
                    assert(abs_success_seq(acc@) =~= abs_success_seq(acc0).push(dd));
                }
                Some((acc, n + 1))
            } else {
                None
            }
        },
    }
}

/// Completes a success envelope, executably.
fn finish_api_response_x(
    data: Option<Vec<SuccessData>>,
    message: Option<String>,
    request_id: Option<String>,
    object: Option<Option<String>>,
    end: usize,
) -> (r: Option<(ApiResponse, usize)>)
    ensures
        ({
            let sp = finish_api_response(
                abs_opt_successes(data),
                abs_opt_str(message),
                abs_opt_str(request_id),
                abs_opt_opt_str(object),
                end as int,
            );
            match r {
                Some(p) => sp matches Some(q) && q.0 == abs_api_response(p.0) && q.1 == p.1 as int
                    && p.1 == end,
                None => sp is None,
            }
        }),
{
    match (data, message, request_id) {
        (Some(d), Some(m), Some(rid)) => Some(
            (ApiResponse { data: d, message: m, request_id: rid, object: collapse(object) }, end),
        ),
        _ => None,
    }
}

/// The members of a success envelope, executably.
fn api_response_members_x(
    s: &Vec<char>,
    i: usize,
    first: bool,
    data: Option<Vec<SuccessData>>,
    message: Option<String>,
    request_id: Option<String>,
    object: Option<Option<String>>,
) -> (r: Option<(ApiResponse, usize)>)
    requires
        i <= s@.len(),
    ensures
        ({
            let sp = api_response_members(
                s@,
                i as int,
                first,
                abs_opt_successes(data),
                abs_opt_str(message),
                abs_opt_str(request_id),
                abs_opt_opt_str(object),
            );
            match r {
                Some(p) => sp matches Some(q) && q.0 == abs_api_response(p.0) && q.1 == p.1 as int
                    && i < p.1 <= s@.len(),
                None => sp is None,
            }
        }),
    decreases s@.len() - i,
{
    match member_key_x(s, i, first) {
        None => None,
        Some(None) => {
            proof {
                vstd::std_specs::vec::axiom_spec_len(s);
                assert(empty_obj_end(s@, i as int) <= s@.len());
            }
            let e = skip_ws_x(s, i);
            finish_api_response_x(data, message, request_id, object, e + 1)
        },
        Some(Some((key, m))) => {
            if key_is(&key, "data") {
                if data.is_some() {
                    return None;
                }
                if !(m < s.len() && s[m] == '[') {
                    return None;
                }
                match success_list_x(s, m) {
                    None => None,
                    Some((v, v_end)) => api_response_step_x(
                        s,
                        m,
                        v_end,
                        Some(v),
                        message,
                        request_id,
                        object,
                    ),
                }
            } else if key_is(&key, "message") {
                if message.is_some() {
                    return None;
                }
                match str_value_x(s, m) {
                    None => None,
                    Some((v, v_end)) => api_response_step_x(
                        s,
                        m,
                        v_end,
                        data,
                        Some(v),
                        request_id,
                        object,
                    ),
                }
            } else if key_is(&key, "request_id") {
                if request_id.is_some() {
                    return None;
                }
                match str_value_x(s, m) {
                    None => None,
                    Some((v, v_end)) => api_response_step_x(
                        s,
                        m,
                        v_end,
                        data,
                        message,
                        Some(v),
                        object,
                    ),
                }
            } else if key_is(&key, "object") {
                if object.is_some() {
                    return None;
                }
                match opt_str_value_x(s, m) {
                    None => None,
                    Some((v, v_end)) => api_response_step_x(
                        s,
                        m,
                        v_end,
                        data,
                        message,
                        request_id,
                        Some(v),
                    ),
                }
            } else {
                match skip_value_x(s, m) {
                    None => None,
                    Some(v_end) => api_response_step_x(
                        s,
                        m,
                        v_end,
                        data,
                        message,
                        request_id,
                        object,
                    ),
                }
            }
        },
    }
}

/// Continues a success envelope after one member's value, executably.
fn api_response_step_x(
    s: &Vec<char>,
    m: usize,
    v_end: usize,
    data: Option<Vec<SuccessData>>,
    message: Option<String>,
    request_id: Option<String>,
    object: Option<Option<String>>,
) -> (r: Option<(ApiResponse, usize)>)
    requires
        m < v_end <= s@.len(),
    ensures
        ({
            let sp = api_response_step(
                s@,
                m as int,
                v_end as int,
                abs_opt_successes(data),
                abs_opt_str(message),
                abs_opt_str(request_id),
                abs_opt_opt_str(object),
            );
            match r {
                Some(p) => sp matches Some(q) && q.0 == abs_api_response(p.0) && q.1 == p.1 as int
                    && m < p.1 <= s@.len(),
                None => sp is None,
            }
        }),
    decreases s@.len() - m,
{
    match member_sep_x(s, v_end) {
        None => None,
        Some((next, done)) => {
            if done {
                finish_api_response_x(data, message, request_id, object, next)
            } else {
                api_response_members_x(s, next, false, data, message, request_id, object)
            }
        },
    }
}

/// Reads a whole success envelope body: the typed envelope exactly when the
/// body is a syntactically valid success envelope.
pub fn parse_api_response_body(body: &str) -> (r: Option<ApiResponse>)
    ensures
        match r {
            Some(e) => api_response_doc(body@) == Some(abs_api_response(e)),
            None => api_response_doc(body@) is None,
        },
{
    let s = str_to_chars(body);
    let i = skip_ws_x(&s, 0);
    if i >= s.len() {
        return None;
    }
    if s[i] != '{' {
        return None;
    }
    match api_response_members_x(&s, i + 1, true, None, None, None, None) {
        None => None,
        Some((e, j)) => {
            let k = skip_ws_x(&s, j);
            if k == s.len() {
                Some(e)
            } else {
                None
            }
        },
    }
}

/// Completes an upload envelope, executably.
fn finish_upload_x(
    file_cache_key: Option<String>,
    message: Option<String>,
    code: Option<String>,
    end: usize,
) -> (r: Option<(FileUploadResponse, usize)>)
    ensures
        ({
            let sp = finish_upload(
                abs_opt_str(file_cache_key),
                abs_opt_str(message),
                abs_opt_str(code),
                end as int,
            );
            match r {
                Some(p) => sp matches Some(q) && q.0 == abs_upload(p.0) && q.1 == p.1 as int && p.1
                    == end,
                None => sp is None,
            }
        }),
{
    match (file_cache_key, message, code) {
        (Some(k), Some(m), Some(c)) => Some(
            (FileUploadResponse { file_cache_key: k, message: m, code: c }, end),
        ),
        _ => None,
    }
}

/// The members of an upload envelope, executably.
fn upload_members_x(
    s: &Vec<char>,
    i: usize,
    first: bool,
    file_cache_key: Option<String>,
    message: Option<String>,
    code: Option<String>,
) -> (r: Option<(FileUploadResponse, usize)>)
    requires
        i <= s@.len(),
    ensures
        ({
            let sp = upload_members(
                s@,
                i as int,
                first,
                abs_opt_str(file_cache_key),
                abs_opt_str(message),
                abs_opt_str(code),
            );
            match r {
                Some(p) => sp matches Some(q) && q.0 == abs_upload(p.0) && q.1 == p.1 as int && i
                    < p.1 <= s@.len(),
                None => sp is None,
            }
        }),
    decreases s@.len() - i,
{
    match member_key_x(s, i, first) {
        None => None,
        Some(None) => {
            proof {
                vstd::std_specs::vec::axiom_spec_len(s);
                assert(empty_obj_end(s@, i as int) <= s@.len());
            }
            let e = skip_ws_x(s, i);
            finish_upload_x(file_cache_key, message, code, e + 1)
        },
        Some(Some((key, m))) => {
            if key_is(&key, "file_cache_key") {
                if file_cache_key.is_some() {
                    return None;
                }
                match str_value_x(s, m) {
                    None => None,
                    Some((v, v_end)) => upload_step_x(s, m, v_end, Some(v), message, code),
                }
            } else if key_is(&key, "message") {
                if message.is_some() {
                    return None;
                }
                match str_value_x(s, m) {
                    None => None,
                    Some((v, v_end)) => upload_step_x(s, m, v_end, file_cache_key, Some(v), code),
                }
            } else if key_is(&key, "code") {
                if code.is_some() {
                    return None;
                }
                match str_value_x(s, m) {
                    None => None,
                    Some((v, v_end)) => upload_step_x(
                        s,
                        m,
                        v_end,
                        file_cache_key,
                        message,
                        Some(v),
                    ),
                }
            } else {
                match skip_value_x(s, m) {
                    None => None,
                    Some(v_end) => upload_step_x(s, m, v_end, file_cache_key, message, code),
                }
            }
        },
    }
}

/// Continues an upload envelope after one member's value, executably.
fn upload_step_x(
    s: &Vec<char>,
    m: usize,
    v_end: usize,
    file_cache_key: Option<String>,
    message: Option<String>,
    code: Option<String>,
) -> (r: Option<(FileUploadResponse, usize)>)
    requires
        m < v_end <= s@.len(),
    ensures
        ({
            let sp = upload_step(
                s@,
                m as int,
                v_end as int,
                abs_opt_str(file_cache_key),
                abs_opt_str(message),
                abs_opt_str(code),
            );
            match r {
                Some(p) => sp matches Some(q) && q.0 == abs_upload(p.0) && q.1 == p.1 as int && m
                    < p.1 <= s@.len(),
                None => sp is None,
            }
        }),
    decreases s@.len() - m,
{
    match member_sep_x(s, v_end) {
        None => None,
        Some((next, done)) => {
            if done {
                finish_upload_x(file_cache_key, message, code, next)
            } else {
                upload_members_x(s, next, false, file_cache_key, message, code)
            }
        },
    }
}

/// Reads a whole upload envelope body: the typed envelope exactly when the
/// body is a syntactically valid upload envelope.
pub fn parse_upload_body(body: &str) -> (r: Option<FileUploadResponse>)
    ensures
        match r {
            Some(e) => upload_doc(body@) == Some(abs_upload(e)),
            None => upload_doc(body@) is None,
        },
{
    let s = str_to_chars(body);
    let i = skip_ws_x(&s, 0);
    if i >= s.len() {
        return None;
    }
    if s[i] != '{' {
        return None;
    }
    match upload_members_x(&s, i + 1, true, None, None, None) {
        None => None,
        Some((e, j)) => {
            let k = skip_ws_x(&s, j);
            if k == s.len() {
                Some(e)
            } else {
                None
            }
        },
    }
}

} // verus!
