//! What is made of the answers of web servers.

use vstd::prelude::*;
use vstd::string::*;

use crate::text;

verus! {

/// What came of asking a web server.
#[derive(Debug, PartialEq, Eq)]
pub enum HttpReply {
    /// No answer, with the reason.
    Unreachable(String),
    /// An answer with this status, and its body or why that could not be read.
    Answered(u16, Result<String, String>),
}

/// The statuses of an answer that brings what was asked for.
pub open spec fn successful(status: u16) -> bool {
    200 <= status < 300
}

/// What is said to whoever asked: the body where all went well, else which
/// step failed.
pub open spec fn reply_result(
    reply: HttpReply,
    unreachable: Seq<char>,
    refused: Seq<char>,
    unread: Seq<char>,
) -> Result<Seq<char>, Seq<char>> {
    match reply {
        HttpReply::Unreachable(reason) => Err(unreachable + reason@),
        HttpReply::Answered(status, body) => if !successful(status) {
            Err(refused + text::decimal(status as nat))
        } else {
            match body {
                Ok(content) => Ok(content@),
                Err(reason) => Err(unread + reason@),
            }
        },
    }
}

fn judge(reply: HttpReply, unreachable: &str, refused: &str, unread: &str) -> (r: Result<
    String,
    String,
>)
    ensures
        text::result_view(r) == reply_result(reply, unreachable@, refused@, unread@),
{
    match reply {
        HttpReply::Unreachable(reason) => {
            let mut message = unreachable.to_string();
            message.append(reason.as_str());
            Err(message)
        },
        HttpReply::Answered(status, body) => {
            if status < 200 || status >= 300 {
                let mut message = refused.to_string();
                message.append(text::decimal_text(status as u64).as_str());
                return Err(message);
            }
            match body {
                Ok(content) => Ok(content),
                Err(reason) => {
                    let mut message = unread.to_string();
                    message.append(reason.as_str());
                    Err(message)
                },
            }
        },
    }
}

/// What is made of the answer of a package registry.
pub open spec fn registry_result(reply: HttpReply) -> Result<Seq<char>, Seq<char>> {
    reply_result(reply, "无法获取 npm latest："@, "无法获取 npm latest：HTTP "@, "npm latest 读取失败："@)
}

/// The text that a package registry has at this address; `get` asks it.
pub fn fetch_text<F: FnOnce(&str) -> HttpReply>(url: &str, get: F) -> (r: Result<String, String>)
    requires
        forall|address: &str| call_requires(get, (address,)),
    ensures
        exists|address: &str, reply: HttpReply|
            address@ == url@ && #[trigger] call_ensures(get, (address,), reply) && text::result_view(r)
                == registry_result(reply),
{
    let reply = get(url);
    registry_text(reply)
}

/// What is made of the answer of a package registry.
pub fn registry_text(reply: HttpReply) -> (r: Result<String, String>)
    ensures
        text::result_view(r) == registry_result(reply),
{
    judge(reply, "无法获取 npm latest：", "无法获取 npm latest：HTTP ", "npm latest 读取失败：")
}

/// What is made of the answer of the plugin market.
pub fn hub_text(reply: HttpReply) -> (r: Result<String, String>)
    ensures
        text::result_view(r) == reply_result(
            reply,
            "无法连接插件市场："@,
            "插件市场返回 HTTP "@,
            "插件市场读取失败："@,
        ),
{
    judge(reply, "无法连接插件市场：", "插件市场返回 HTTP ", "插件市场读取失败：")
}

/// What is said where the answer of the plugin market makes no sense.
pub fn hub_unreadable() -> (r: String)
    ensures
        r@ == "插件市场数据无效。"@,
{
    "插件市场数据无效。".to_string()
}

// ---------------------------------------------------------------------------
// The probe of the runtime's own server
// ---------------------------------------------------------------------------
/// The question that the runtime's server is asked.
pub open spec fn probe_text(port: u16) -> Seq<char> {
    "GET / HTTP/1.1\r\nHost: 127.0.0.1:"@ + text::decimal(port as nat)
        + "\r\nConnection: close\r\n\r\n"@
}

/// The question that the runtime's server is asked.
pub fn probe_request(port: u16) -> (r: String)
    ensures
        r@ == probe_text(port),
{
    let mut out = "GET / HTTP/1.1\r\nHost: 127.0.0.1:".to_string();
    out.append(text::decimal_text(port as u64).as_str());
    out.append("\r\nConnection: close\r\n\r\n");
    out
}

/// The bytes start with these characters.
pub open spec fn begins_with(bytes: Seq<u8>, lead: Seq<char>) -> bool {
    lead.len() <= bytes.len() && forall|i: int|
        0 <= i < lead.len() ==> bytes[i] as char == #[trigger] lead[i]
}

/// The answer starts with a success or a redirection.
pub open spec fn good_answer(response: Seq<u8>) -> bool {
    begins_with(response, "HTTP/1.1 2"@) || begins_with(response, "HTTP/1.1 3"@) || begins_with(
        response,
        "HTTP/1.0 2"@,
    ) || begins_with(response, "HTTP/1.0 3"@)
}

fn starts_as(bytes: &[u8], lead: &str) -> (r: bool)
    ensures
        r == begins_with(bytes@, lead@),
{
    let items = text::chars_of(lead);
    if items.len() > bytes.len() {
        return false;
    }
    let mut i: usize = 0;
    while i < items.len()
        invariant
            i <= items@.len() <= bytes@.len(),
            items@ == lead@,
            forall|j: int| 0 <= j < i ==> bytes@[j] as char == #[trigger] lead@[j],
        decreases items@.len() - i,
    {
        if bytes[i] as char != items[i] {
            assert(bytes@[i as int] as char != lead@[i as int]);
            return false;
        }
        i += 1;
    }
    true
}

/// Whether the first bytes of an answer show a success or a redirection.
pub fn http_status_is_ready(response: &[u8]) -> (r: bool)
    ensures
        r == good_answer(response@),
{
    starts_as(response, "HTTP/1.1 2") || starts_as(response, "HTTP/1.1 3") || starts_as(
        response,
        "HTTP/1.0 2",
    ) || starts_as(response, "HTTP/1.0 3")
}

// ---------------------------------------------------------------------------
// Laws
// ---------------------------------------------------------------------------
/// An answer is taken exactly where its status is in the two hundreds and its body
/// could be read, and then it is that body; else the step that failed is said,
/// with the reason or the status.
pub proof fn only_a_full_answer_is_taken(
    reply: HttpReply,
    unreachable: Seq<char>,
    refused: Seq<char>,
    unread: Seq<char>,
)
    ensures
        match reply {
            HttpReply::Unreachable(reason) => reply_result(reply, unreachable, refused, unread)
                == Err::<Seq<char>, Seq<char>>(unreachable + reason@),
            HttpReply::Answered(status, body) => {
                let r = reply_result(reply, unreachable, refused, unread);
                &&& status < 200 || status > 299 ==> r == Err::<Seq<char>, Seq<char>>(
                    refused + text::decimal(status as nat),
                )
                &&& 200 <= status <= 299 ==> (match body {
                    Ok(content) => r == Ok::<Seq<char>, Seq<char>>(content@),
                    Err(reason) => r == Err::<Seq<char>, Seq<char>>(unread + reason@),
                })
            },
        },
{
}

/// What is said of the answer of a package registry, word for word.
pub proof fn a_registry_answers_or_its_failure_is_said(reply: HttpReply)
    ensures
        match reply {
            HttpReply::Unreachable(reason) => registry_result(reply) == Err::<
                Seq<char>,
                Seq<char>,
            >("无法获取 npm latest："@ + reason@),
            HttpReply::Answered(status, body) => {
                &&& status < 200 || status > 299 ==> registry_result(reply) == Err::<
                    Seq<char>,
                    Seq<char>,
                >("无法获取 npm latest：HTTP "@ + text::decimal(status as nat))
                &&& 200 <= status <= 299 ==> (match body {
                    Ok(content) => registry_result(reply) == Ok::<Seq<char>, Seq<char>>(content@),
                    Err(reason) => registry_result(reply) == Err::<Seq<char>, Seq<char>>(
                        "npm latest 读取失败："@ + reason@,
                    ),
                })
            },
        },
{
}

/// The runtime's server is asked for its root on its own port, and to close the
/// connection.
pub proof fn a_probe_names_its_port(port: u16)
    ensures
        probe_text(port) == "GET / HTTP/1.1\r\nHost: 127.0.0.1:"@ + text::decimal(port as nat)
            + "\r\nConnection: close\r\n\r\n"@,
{
}

/// An answer is good where it begins, byte for byte, with `HTTP/1.`, a zero or a
/// one, a space, and a two or a three; and nothing else is.
pub proof fn a_good_answer_byte_by_byte(response: Seq<u8>)
    ensures
        good_answer(response) <==> {
            &&& response.len() >= 10
            &&& response[0] == 72
            &&& response[1] == 84
            &&& response[2] == 84
            &&& response[3] == 80
            &&& response[4] == 47
            &&& response[5] == 49
            &&& response[6] == 46
            &&& response[7] == 48 || response[7] == 49
            &&& response[8] == 32
            &&& response[9] == 50 || response[9] == 51
        },
{
    lead_byte_by_byte(response, "HTTP/1.1 2"@, '1', '2');
    lead_byte_by_byte(response, "HTTP/1.1 3"@, '1', '3');
    lead_byte_by_byte(response, "HTTP/1.0 2"@, '0', '2');
    lead_byte_by_byte(response, "HTTP/1.0 3"@, '0', '3');
}

proof fn lead_byte_by_byte(response: Seq<u8>, lead: Seq<char>, minor: char, class: char)
    requires
        lead == "HTTP/1.1 2"@ && minor == '1' && class == '2' || lead == "HTTP/1.1 3"@ && minor
            == '1' && class == '3' || lead == "HTTP/1.0 2"@ && minor == '0' && class == '2' || lead
            == "HTTP/1.0 3"@ && minor == '0' && class == '3',
    ensures
        begins_with(response, lead) <==> {
            &&& response.len() >= 10
            &&& response[0] == 72
            &&& response[1] == 84
            &&& response[2] == 84
            &&& response[3] == 80
            &&& response[4] == 47
            &&& response[5] == 49
            &&& response[6] == 46
            &&& response[7] as int == minor as int
            &&& response[8] == 32
            &&& response[9] as int == class as int
        },
{
    reveal_strlit("HTTP/1.1 2");
    reveal_strlit("HTTP/1.1 3");
    reveal_strlit("HTTP/1.0 2");
    reveal_strlit("HTTP/1.0 3");
    assert(lead =~= seq!['H', 'T', 'T', 'P', '/', '1', '.', minor, ' ', class]);
    if begins_with(response, lead) {
        assert(response[0] as char == lead[0]);
        assert(response[1] as char == lead[1]);
        assert(response[2] as char == lead[2]);
        assert(response[3] as char == lead[3]);
        assert(response[4] as char == lead[4]);
        assert(response[5] as char == lead[5]);
        assert(response[6] as char == lead[6]);
        assert(response[7] as char == lead[7]);
        assert(response[8] as char == lead[8]);
        assert(response[9] as char == lead[9]);
    }
}

/// What is said of the answer of the plugin market, word for word.
pub proof fn the_market_answers_or_its_failure_is_said(
    reply: HttpReply,
    r: Result<String, String>,
    unreadable: String,
)
    requires
        call_ensures(hub_text, (reply,), r),
        call_ensures(hub_unreadable, (), unreadable),
    ensures
        unreadable@ == "插件市场数据无效。"@,
        match reply {
            HttpReply::Unreachable(reason) => r matches Err(message) && message@
                == "无法连接插件市场："@ + reason@,
            HttpReply::Answered(status, body) => {
                &&& status < 200 || status > 299 ==> (r matches Err(message) && message@
                    == "插件市场返回 HTTP "@ + text::decimal(status as nat))
                &&& 200 <= status <= 299 ==> (match body {
                    Ok(content) => r matches Ok(found) && found@ == content@,
                    Err(reason) => r matches Err(message) && message@ == "插件市场读取失败："@
                        + reason@,
                })
            },
        },
{
}

/// What a registry has at an address comes from that very address.
pub proof fn a_text_comes_from_its_address<F: FnOnce(&str) -> HttpReply>(
    url: &str,
    get: F,
    r: Result<String, String>,
)
    requires
        call_ensures(fetch_text::<F>, (url, get), r),
    ensures
        exists|address: &str, reply: HttpReply|
            {
                &&& #[trigger] call_ensures(get, (address,), reply)
                &&& address@ == url@
                &&& r is Ok <==> (reply matches HttpReply::Answered(status, Ok(_)) && 200 <= status
                    <= 299)
                &&& reply matches HttpReply::Answered(_, Ok(content)) ==> r is Ok ==> r->Ok_0@
                    == content@
            },
{
}

} // verus!
