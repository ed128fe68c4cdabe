//! The fixed table of HTTP status codes and their reason phrases.

use vstd::prelude::*;

verus! {

/// An HTTP status code.
///
/// Each variant stands for one code of the fixed status table; the numeric
/// value is given by [`HttpStatus::code`] and the full status-line text
/// (code followed by the reason phrase) by [`HttpStatus::get_string`].
#[allow(non_camel_case_types)]
#[derive(Clone, Copy, Debug, PartialEq, Eq, Structural)]
pub enum HttpStatus {
    Continue,
    Switching_Protocols,
    OK,
    Created,
    Accepted,
    Non_Authoritative_Information,
    No_Content,
    Reset_Content,
    Partial_Content,
    Multiple_Choices,
    Moved_Permanently,
    Found,
    See_Other,
    Not_Modified,
    Use_Proxy,
    Temporary_Redirect,
    Permanent_Redirect,
    Bad_Request,
    Unauthorized,
    Payment_Required,
    Forbidden,
    Not_Found,
    Method_Not_Allowed,
    Not_Acceptable,
    Proxy_Authentication_Required,
    Request_Timeout,
    Conflict,
    Gone,
    Length_Required,
    Precondition_Failed,
    Payload_Too_Large,
    URI_Too_Long,
    Unsupported_Media_Type,
    Range_Not_Satisfiable,
    Expectation_Failed,
    Im_A_Teapot,
    Misdirected_Request,
    Unprocessable_Entity,
    Locked,
    Failed_Dependency,
    Too_Early,
    Upgrade_Required,
    Precondition_Required,
    Too_Many_Requests,
    Request_Header_Fields_Too_Large,
    Unavailable_For_Legal_Reasons,
    Internal_Server_Error,
    Not_Implemented,
    Bad_Gateway,
    Service_Unavailable,
    Gateway_Timeout,
    HTTP_Version_Not_Supported,
    Variant_Also_Negotiates,
    Insufficient_Storage,
    Loop_Detected,
    Not_Extended,
    Network_Authentication_Required,
}

impl HttpStatus {
    /// The numeric status code of this variant.
    pub open spec fn spec_code(self) -> u32 {
        match self {
            HttpStatus::Continue => 100,
            HttpStatus::Switching_Protocols => 101,
            HttpStatus::OK => 200,
            HttpStatus::Created => 201,
            HttpStatus::Accepted => 202,
            HttpStatus::Non_Authoritative_Information => 203,
            HttpStatus::No_Content => 204,
            HttpStatus::Reset_Content => 205,
            HttpStatus::Partial_Content => 206,
            HttpStatus::Multiple_Choices => 300,
            HttpStatus::Moved_Permanently => 301,
            HttpStatus::Found => 302,
            HttpStatus::See_Other => 303,
            HttpStatus::Not_Modified => 304,
            HttpStatus::Use_Proxy => 305,
            HttpStatus::Temporary_Redirect => 307,
            HttpStatus::Permanent_Redirect => 308,
            HttpStatus::Bad_Request => 400,
            HttpStatus::Unauthorized => 401,
            HttpStatus::Payment_Required => 402,
            HttpStatus::Forbidden => 403,
            HttpStatus::Not_Found => 404,
            HttpStatus::Method_Not_Allowed => 405,
            HttpStatus::Not_Acceptable => 406,
            HttpStatus::Proxy_Authentication_Required => 407,
            HttpStatus::Request_Timeout => 408,
            HttpStatus::Conflict => 409,
            HttpStatus::Gone => 410,
            HttpStatus::Length_Required => 411,
            HttpStatus::Precondition_Failed => 412,
            HttpStatus::Payload_Too_Large => 413,
            HttpStatus::URI_Too_Long => 414,
            HttpStatus::Unsupported_Media_Type => 415,
            HttpStatus::Range_Not_Satisfiable => 416,
            HttpStatus::Expectation_Failed => 417,
            HttpStatus::Im_A_Teapot => 418,
            HttpStatus::Misdirected_Request => 421,
            HttpStatus::Unprocessable_Entity => 422,
            HttpStatus::Locked => 423,
            HttpStatus::Failed_Dependency => 424,
            HttpStatus::Too_Early => 425,
            HttpStatus::Upgrade_Required => 426,
            HttpStatus::Precondition_Required => 428,
            HttpStatus::Too_Many_Requests => 429,
            HttpStatus::Request_Header_Fields_Too_Large => 431,
            HttpStatus::Unavailable_For_Legal_Reasons => 451,
            HttpStatus::Internal_Server_Error => 500,
            HttpStatus::Not_Implemented => 501,
            HttpStatus::Bad_Gateway => 502,
            HttpStatus::Service_Unavailable => 503,
            HttpStatus::Gateway_Timeout => 504,
            HttpStatus::HTTP_Version_Not_Supported => 505,
            HttpStatus::Variant_Also_Negotiates => 506,
            HttpStatus::Insufficient_Storage => 507,
            HttpStatus::Loop_Detected => 508,
            HttpStatus::Not_Extended => 510,
            HttpStatus::Network_Authentication_Required => 511,
        }
    }

    /// The status-line text of this variant: the numeric code, one space,
    /// and the reason phrase.
    pub open spec fn spec_text(self) -> Seq<char> {
        match self {
            HttpStatus::Continue => "100 Continue"@,
            HttpStatus::Switching_Protocols => "101 Switching Protocols"@,
            HttpStatus::OK => "200 OK"@,
            HttpStatus::Created => "201 Created"@,
            HttpStatus::Accepted => "202 Accepted"@,
            HttpStatus::Non_Authoritative_Information => "203 Non Authoritative Information"@,
            HttpStatus::No_Content => "204 No Content"@,
            HttpStatus::Reset_Content => "205 Reset Content"@,
            HttpStatus::Partial_Content => "206 Partial Content"@,
            HttpStatus::Multiple_Choices => "300 Multiple Choices"@,
            HttpStatus::Moved_Permanently => "301 Moved Permanently"@,
            HttpStatus::Found => "302 Found"@,
            HttpStatus::See_Other => "303 See Other"@,
            HttpStatus::Not_Modified => "304 Not Modified"@,
            HttpStatus::Use_Proxy => "305 Use Proxy"@,
            HttpStatus::Temporary_Redirect => "307 Temporary Redirect"@,
            HttpStatus::Permanent_Redirect => "308 Permanent Redirect"@,
            HttpStatus::Bad_Request => "400 Bad Request"@,
            HttpStatus::Unauthorized => "401 Unauthorized"@,
            HttpStatus::Payment_Required => "402 Payment Required"@,
            HttpStatus::Forbidden => "403 Forbidden"@,
            HttpStatus::Not_Found => "404 Not Found"@,
            HttpStatus::Method_Not_Allowed => "405 Method Not Allowed"@,
            HttpStatus::Not_Acceptable => "406 Not Acceptable"@,
            HttpStatus::Proxy_Authentication_Required => "407 Proxy Authentication Required"@,
            HttpStatus::Request_Timeout => "408 Request Timeout"@,
            HttpStatus::Conflict => "409 Conflict"@,
            HttpStatus::Gone => "410 Gone"@,
            HttpStatus::Length_Required => "411 Length Required"@,
            HttpStatus::Precondition_Failed => "412 Precondition Failed"@,
            HttpStatus::Payload_Too_Large => "413 Payload Too Large"@,
            HttpStatus::URI_Too_Long => "414 URI Too Long"@,
            HttpStatus::Unsupported_Media_Type => "415 Unsupported Media Type"@,
            HttpStatus::Range_Not_Satisfiable => "416 Range Not Satisfiable"@,
            HttpStatus::Expectation_Failed => "417 Expectation Failed"@,
            HttpStatus::Im_A_Teapot => "418 Im A Teapot"@,
            HttpStatus::Misdirected_Request => "421 Misdirected Request"@,
            HttpStatus::Unprocessable_Entity => "422 Unprocessable Entity"@,
            HttpStatus::Locked => "423 Locked"@,
            HttpStatus::Failed_Dependency => "424 Failed Dependency"@,
            HttpStatus::Too_Early => "425 Too Early"@,
            HttpStatus::Upgrade_Required => "426 Upgrade Required"@,
            HttpStatus::Precondition_Required => "428 Precondition Required"@,
            HttpStatus::Too_Many_Requests => "429 Too Many Requests"@,
            HttpStatus::Request_Header_Fields_Too_Large => "431 Request Header Fields Too Large"@,
            HttpStatus::Unavailable_For_Legal_Reasons => "451 Unavailable For Legal Reasons"@,
            HttpStatus::Internal_Server_Error => "500 Internal Server Error"@,
            HttpStatus::Not_Implemented => "501 Not Implemented"@,
            HttpStatus::Bad_Gateway => "502 Bad Gateway"@,
            HttpStatus::Service_Unavailable => "503 Service Unavailable"@,
            HttpStatus::Gateway_Timeout => "504 Gateway Timeout"@,
            HttpStatus::HTTP_Version_Not_Supported => "505 HTTP Version Not Supported"@,
            HttpStatus::Variant_Also_Negotiates => "506 Variant Also Negotiates"@,
            HttpStatus::Insufficient_Storage => "507 Insufficient Storage"@,
            HttpStatus::Loop_Detected => "508 Loop Detected"@,
            HttpStatus::Not_Extended => "510 Not Extended"@,
            HttpStatus::Network_Authentication_Required => "511 Network Authentication Required"@,
        }
    }

    /// The numeric status code, e.g. `404` for `Not_Found`.
    pub fn code(&self) -> (c: u32)
        ensures
            c == self.spec_code(),
    {
        match self {
            HttpStatus::Continue => 100,
            HttpStatus::Switching_Protocols => 101,
            HttpStatus::OK => 200,
            HttpStatus::Created => 201,
            HttpStatus::Accepted => 202,
            HttpStatus::Non_Authoritative_Information => 203,
            HttpStatus::No_Content => 204,
            HttpStatus::Reset_Content => 205,
            HttpStatus::Partial_Content => 206,
            HttpStatus::Multiple_Choices => 300,
            HttpStatus::Moved_Permanently => 301,
            HttpStatus::Found => 302,
            HttpStatus::See_Other => 303,
            HttpStatus::Not_Modified => 304,
            HttpStatus::Use_Proxy => 305,
            HttpStatus::Temporary_Redirect => 307,
            HttpStatus::Permanent_Redirect => 308,
            HttpStatus::Bad_Request => 400,
            HttpStatus::Unauthorized => 401,
            HttpStatus::Payment_Required => 402,
            HttpStatus::Forbidden => 403,
            HttpStatus::Not_Found => 404,
            HttpStatus::Method_Not_Allowed => 405,
            HttpStatus::Not_Acceptable => 406,
            HttpStatus::Proxy_Authentication_Required => 407,
            HttpStatus::Request_Timeout => 408,
            HttpStatus::Conflict => 409,
            HttpStatus::Gone => 410,
            HttpStatus::Length_Required => 411,
            HttpStatus::Precondition_Failed => 412,
            HttpStatus::Payload_Too_Large => 413,
            HttpStatus::URI_Too_Long => 414,
            HttpStatus::Unsupported_Media_Type => 415,
            HttpStatus::Range_Not_Satisfiable => 416,
            HttpStatus::Expectation_Failed => 417,
            HttpStatus::Im_A_Teapot => 418,
            HttpStatus::Misdirected_Request => 421,
            HttpStatus::Unprocessable_Entity => 422,
            HttpStatus::Locked => 423,
            HttpStatus::Failed_Dependency => 424,
            HttpStatus::Too_Early => 425,
            HttpStatus::Upgrade_Required => 426,
            HttpStatus::Precondition_Required => 428,
            HttpStatus::Too_Many_Requests => 429,
            HttpStatus::Request_Header_Fields_Too_Large => 431,
            HttpStatus::Unavailable_For_Legal_Reasons => 451,
            HttpStatus::Internal_Server_Error => 500,
            HttpStatus::Not_Implemented => 501,
            HttpStatus::Bad_Gateway => 502,
            HttpStatus::Service_Unavailable => 503,
            HttpStatus::Gateway_Timeout => 504,
            HttpStatus::HTTP_Version_Not_Supported => 505,
            HttpStatus::Variant_Also_Negotiates => 506,
            HttpStatus::Insufficient_Storage => 507,
            HttpStatus::Loop_Detected => 508,
            HttpStatus::Not_Extended => 510,
            HttpStatus::Network_Authentication_Required => 511,
        }
    }

    /// The text placed after `HTTP/1.1 ` in the status line,
    /// e.g. `"404 Not Found"`.
    pub fn get_string(&self) -> (s: String)
        ensures
            s@ == self.spec_text(),
    {
        match self {
            HttpStatus::Continue => "100 Continue".to_owned(),
            HttpStatus::Switching_Protocols => "101 Switching Protocols".to_owned(),
            HttpStatus::OK => "200 OK".to_owned(),
            HttpStatus::Created => "201 Created".to_owned(),
            HttpStatus::Accepted => "202 Accepted".to_owned(),
            HttpStatus::Non_Authoritative_Information => "203 Non Authoritative Information".to_owned(),
            HttpStatus::No_Content => "204 No Content".to_owned(),
            HttpStatus::Reset_Content => "205 Reset Content".to_owned(),
            HttpStatus::Partial_Content => "206 Partial Content".to_owned(),
            HttpStatus::Multiple_Choices => "300 Multiple Choices".to_owned(),
            HttpStatus::Moved_Permanently => "301 Moved Permanently".to_owned(),
            HttpStatus::Found => "302 Found".to_owned(),
            HttpStatus::See_Other => "303 See Other".to_owned(),
            HttpStatus::Not_Modified => "304 Not Modified".to_owned(),
            HttpStatus::Use_Proxy => "305 Use Proxy".to_owned(),
            HttpStatus::Temporary_Redirect => "307 Temporary Redirect".to_owned(),
            HttpStatus::Permanent_Redirect => "308 Permanent Redirect".to_owned(),
            HttpStatus::Bad_Request => "400 Bad Request".to_owned(),
            HttpStatus::Unauthorized => "401 Unauthorized".to_owned(),
            HttpStatus::Payment_Required => "402 Payment Required".to_owned(),
            HttpStatus::Forbidden => "403 Forbidden".to_owned(),
            HttpStatus::Not_Found => "404 Not Found".to_owned(),
            HttpStatus::Method_Not_Allowed => "405 Method Not Allowed".to_owned(),
            HttpStatus::Not_Acceptable => "406 Not Acceptable".to_owned(),
            HttpStatus::Proxy_Authentication_Required => "407 Proxy Authentication Required".to_owned(),
            HttpStatus::Request_Timeout => "408 Request Timeout".to_owned(),
            HttpStatus::Conflict => "409 Conflict".to_owned(),
            HttpStatus::Gone => "410 Gone".to_owned(),
            HttpStatus::Length_Required => "411 Length Required".to_owned(),
            HttpStatus::Precondition_Failed => "412 Precondition Failed".to_owned(),
            HttpStatus::Payload_Too_Large => "413 Payload Too Large".to_owned(),
            HttpStatus::URI_Too_Long => "414 URI Too Long".to_owned(),
            HttpStatus::Unsupported_Media_Type => "415 Unsupported Media Type".to_owned(),
            HttpStatus::Range_Not_Satisfiable => "416 Range Not Satisfiable".to_owned(),
            HttpStatus::Expectation_Failed => "417 Expectation Failed".to_owned(),
            HttpStatus::Im_A_Teapot => "418 Im A Teapot".to_owned(),
            HttpStatus::Misdirected_Request => "421 Misdirected Request".to_owned(),
            HttpStatus::Unprocessable_Entity => "422 Unprocessable Entity".to_owned(),
            HttpStatus::Locked => "423 Locked".to_owned(),
            HttpStatus::Failed_Dependency => "424 Failed Dependency".to_owned(),
            HttpStatus::Too_Early => "425 Too Early".to_owned(),
            HttpStatus::Upgrade_Required => "426 Upgrade Required".to_owned(),
            HttpStatus::Precondition_Required => "428 Precondition Required".to_owned(),
            HttpStatus::Too_Many_Requests => "429 Too Many Requests".to_owned(),
            HttpStatus::Request_Header_Fields_Too_Large => "431 Request Header Fields Too Large".to_owned(),
            HttpStatus::Unavailable_For_Legal_Reasons => "451 Unavailable For Legal Reasons".to_owned(),
            HttpStatus::Internal_Server_Error => "500 Internal Server Error".to_owned(),
            HttpStatus::Not_Implemented => "501 Not Implemented".to_owned(),
            HttpStatus::Bad_Gateway => "502 Bad Gateway".to_owned(),
            HttpStatus::Service_Unavailable => "503 Service Unavailable".to_owned(),
            HttpStatus::Gateway_Timeout => "504 Gateway Timeout".to_owned(),
            HttpStatus::HTTP_Version_Not_Supported => "505 HTTP Version Not Supported".to_owned(),
            HttpStatus::Variant_Also_Negotiates => "506 Variant Also Negotiates".to_owned(),
            HttpStatus::Insufficient_Storage => "507 Insufficient Storage".to_owned(),
            HttpStatus::Loop_Detected => "508 Loop Detected".to_owned(),
            HttpStatus::Not_Extended => "510 Not Extended".to_owned(),
            HttpStatus::Network_Authentication_Required => "511 Network Authentication Required".to_owned(),
        }
    }
}

} // verus!
