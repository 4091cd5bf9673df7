use vstd::prelude::*;
use vstd::string::StringExecFns;
use vstd::utf8::encode_utf8;

use crate::config::{config_json, Config};
use crate::text::{chars_of, replace_all, replaced, string_of};

verus! {

/// The address at which the pages reach the server on the machine `ip`.
pub open spec fn server_url(ip: Seq<char>) -> Seq<char> {
    "http://"@ + ip + ":5200"@
}

/// The page with its placeholders filled in: the server's address, then the
/// settings.
pub open spec fn index_page(template: Seq<char>, ip: Seq<char>, config: Seq<char>) -> Seq<char> {
    replaced(
        replaced(template, "__SYNCINPUT_IP__"@, ip + ":5200"@),
        "__SYNCINPUT_CONFIG__"@,
        config,
    )
}

/// Data of at most this many bytes always fits in a QR code.
pub const QR_SURE_BYTES: usize = 600;

/// The SVG picture that `qrcode` draws for a QR code of `data`, or `None`
/// when `qrcode` cannot encode that much data.
pub uninterp spec fn qr_svg_of(data: Seq<u8>) -> Option<Seq<char>>;

/// `qrcode::QrCode::new` on `data`, followed by `render::<svg::Color>().build()`
/// on the code.
///
/// Claims that the result is the named function `qr_svg_of` of the bytes,
/// and that data of at most `QR_SURE_BYTES` bytes always encodes. qrcode
/// splits the data into segments of at least one byte each; a segment costs
/// at most 20 header bits (mode and length at version 40) and 8 bits per byte,
/// so such data takes at most 600 * 28 = 16800 bits, within the 18672 bits
/// that version 40 holds at error-correction level M, which `QrCode::new`
/// uses. The drawing itself is left unstated.
#[verifier::external_body]
fn qr_svg(data: &[u8]) -> (r: Option<String>)
    ensures
        match r {
            Some(s) => qr_svg_of(data@) == Some(s@),
            None => qr_svg_of(data@) is None,
        },
        data@.len() <= QR_SURE_BYTES ==> r is Some,
{
    match qrcode::QrCode::new(data) {
        Ok(code) => Some(code.render::<qrcode::render::svg::Color>().build()),
        Err(_) => None,
    }
}

/// The address at which the pages reach the server on the machine `ip`.
pub fn server_url_text(ip: &str) -> (u: String)
    ensures
        u@ == server_url(ip@),
{
    let mut u = "http://".to_string();
    u.append(ip);
    u.append(":5200");
    u
}

/// The QR code, as SVG, of the server's address on the machine `ip`; `None`
/// when the address is too long for a QR code, which never happens for a
/// machine name of up to 138 characters.
pub fn qr_page(ip: &str) -> (r: Option<String>)
    ensures
        match r {
            Some(s) => qr_svg_of(encode_utf8(server_url(ip@))) == Some(s@),
            None => qr_svg_of(encode_utf8(server_url(ip@))) is None,
        },
        ip@.len() <= 138 ==> r is Some,
{
    let url = server_url_text(ip);
    proof {
        lemma_utf8_length(url@);
        reveal_strlit("http://");
        reveal_strlit(":5200");
    }
    qr_svg(url.as_str().as_bytes())
}

/// A character takes at most four bytes in UTF-8.
proof fn lemma_utf8_length(s: Seq<char>)
    ensures
        encode_utf8(s).len() <= 4 * s.len(),
    decreases s.len(),
{
    if s.len() > 0 {
        lemma_utf8_length(s.drop_first());
        assert(vstd::utf8::encode_scalar(s[0] as u32).len() <= 4);
    }
}

/// The main page: `template` with the server's address on the machine `ip`
/// and the settings `config` (as compact JSON) put in for their placeholders.
pub fn render_index(template: &str, ip: &str, config: &Config) -> (page: String)
    ensures
        page@ == index_page(template@, ip@, config_json(config@, false)),
{
    let mut addr = ip.to_string();
    addr.append(":5200");
    let json = config.to_json();
    let ip_mark = chars_of("__SYNCINPUT_IP__");
    let config_mark = chars_of("__SYNCINPUT_CONFIG__");
    proof {
        reveal_strlit("__SYNCINPUT_IP__");
        reveal_strlit("__SYNCINPUT_CONFIG__");
    }
    let first = replace_all(&chars_of(template), &ip_mark, &chars_of(addr.as_str()));
    let second = replace_all(&first, &config_mark, &chars_of(json.as_str()));
    string_of(&second)
}

/// A page without placeholders is served as it is.
pub proof fn index_without_placeholders(template: Seq<char>, ip: Seq<char>, config: Seq<char>)
    requires
        forall|i: int| 0 <= i < template.len() ==> template[i] != '_',
    ensures
        index_page(template, ip, config) == template,
{
    reveal_strlit("__SYNCINPUT_IP__");
    reveal_strlit("__SYNCINPUT_CONFIG__");
    lemma_replaced_without_first(template, "__SYNCINPUT_IP__"@, ip + ":5200"@);
    lemma_replaced_without_first(template, "__SYNCINPUT_CONFIG__"@, config);
}

/// Replacing a pattern whose first character `s` does not hold leaves `s` as
/// it is.
proof fn lemma_replaced_without_first(s: Seq<char>, p: Seq<char>, r: Seq<char>)
    requires
        p.len() > 0,
        forall|i: int| 0 <= i < s.len() ==> s[i] != p[0],
    ensures
        replaced(s, p, r) == s,
    decreases s.len(),
{
    if s.len() >= p.len() {
        assert(s.subrange(0, p.len() as int)[0] != p[0]);
        let t = s.drop_first();
        assert forall|i: int| 0 <= i < t.len() implies t[i] != p[0] by {
            assert(t[i] == s[i + 1]);
        }
        lemma_replaced_without_first(t, p, r);
        assert(seq![s[0]] + t =~= s);
    }
}

} // verus!
