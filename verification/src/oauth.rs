//! The OAuth flow's own logic: the authorization link, the checks on the
//! redirect address, and reading the authorization code out of the browser's
//! callback request.

use vstd::prelude::*;
use crate::domain::{ApiConfigurationInput, StoredApiConfiguration, authorization_site_of};
use crate::error::{ServiceError, is_api_error, is_configuration_error, is_url_error};
use crate::text::{decimal, decimal_text, is_unicode_whitespace, str_equals, trim, trimmed};

verus! {

/// A byte that `application/x-www-form-urlencoded` keeps as it is.
pub open spec fn form_byte_unchanged(b: u8) -> bool {
    b == 42 || b == 45 || b == 46 || (48 <= b <= 57) || (65 <= b <= 90) || b == 95 || (97 <= b <= 122)
}

/// An upper-case hexadecimal digit.
pub open spec fn hex_upper(d: int) -> char {
    if d < 10 { (48 + d) as char } else { (55 + d) as char }
}

/// The `application/x-www-form-urlencoded` form of a byte string: unchanged
/// bytes as they are, a space as `+`, any other byte as `%` and two
/// upper-case hexadecimal digits.
pub open spec fn form_urlencoded(bytes: Seq<u8>) -> Seq<char>
    decreases bytes.len(),
{
    if bytes.len() == 0 {
        Seq::empty()
    } else {
        let b = bytes[0];
        let head = if form_byte_unchanged(b) {
            seq![b as char]
        } else if b == 32 {
            seq!['+']
        } else {
            seq!['%', hex_upper(b as int / 16), hex_upper(b as int % 16)]
        };
        head + form_urlencoded(bytes.drop_first())
    }
}

/// `url::form_urlencoded::byte_serialize` of the UTF-8 bytes of `s`,
/// collected into a string. Its source maps `*`, `-`, `.`, `_`, ASCII digits
/// and letters to themselves, a space to `+` and every other byte to its
/// `%XX` escape with upper-case digits.
#[verifier::external_body]
fn form_urlencode(s: &str) -> (r: String)
    ensures
        r@ == form_urlencoded(crate::text::utf8_encode(s@)),
{
    url::form_urlencoded::byte_serialize(s.as_bytes()).collect::<String>()
}

/// The parts of a parsed URL that the flow reads.
pub struct ParsedUrl {
    pub scheme: String,
    pub host: Option<String>,
    /// The explicit port, else the scheme's default port.
    pub port: Option<u16>,
    /// The query's name/value pairs, percent-decoded.
    pub query_pairs: Vec<(String, String)>,
}

/// A plain view of a parsed URL.
pub struct ParsedUrlView {
    pub scheme: Seq<char>,
    pub host: Option<Seq<char>>,
    pub port: Option<u16>,
    pub query_pairs: Seq<(Seq<char>, Seq<char>)>,
}

impl View for ParsedUrl {
    type V = ParsedUrlView;

    open spec fn view(&self) -> ParsedUrlView {
        ParsedUrlView {
            scheme: self.scheme@,
            host: match self.host {
                Some(h) => Some(h@),
                None => None,
            },
            port: self.port,
            query_pairs: self.query_pairs@.map_values(|p: (String, String)| (p.0@, p.1@)),
        }
    }
}

/// What `url::Url::parse` makes of a text: `None` when it refuses it, else
/// the scheme, host (`host_str`), port (`port_or_known_default`) and decoded
/// query pairs (`query_pairs`) of the URL.
pub uninterp spec fn parsed_url(text: Seq<char>) -> Option<ParsedUrlView>;

/// `url::Url::parse`, keeping the parts the flow reads. Which `ParseError`
/// comes back for a refused text is not stated.
#[verifier::external_body]
fn parse_url(text: &str) -> (r: Result<ParsedUrl, url::ParseError>)
    ensures
        match r {
            Ok(u) => parsed_url(text@) == Some(u@),
            Err(_) => parsed_url(text@) is None,
        },
{
    match url::Url::parse(text) {
        Ok(url) => Ok(ParsedUrl {
            scheme: url.scheme().to_string(),
            host: url.host_str().map(|host| host.to_string()),
            port: url.port_or_known_default(),
            query_pairs: url.query_pairs().map(|(name, value)| (name.into_owned(), value.into_owned())).collect(),
        }),
        Err(error) => Err(error),
    }
}

/// The unit type under which the OAuth steps are grouped.
pub struct OAuthService;

/// The address that opens the iSolarCloud authorization page for an application.
pub open spec fn authorization_url_text(site: Seq<char>, cloud_id: u8, application_id: Seq<char>, redirect_uri: Seq<char>) -> Seq<char> {
    site + "/#/authorized-app?cloudId="@ + decimal(cloud_id as nat) + "&applicationId="@
        + form_urlencoded(crate::text::utf8_encode(application_id)) + "&redirectUrl="@
        + form_urlencoded(crate::text::utf8_encode(redirect_uri))
}

impl OAuthService {
    /// The authorization page of the configured region, naming the portal's
    /// application id (not the app key) and the local redirect address.
    pub fn authorization_url(config: &StoredApiConfiguration) -> (r: String)
        ensures
            r@ == authorization_url_text(
                authorization_site_of(config.region).0,
                authorization_site_of(config.region).1,
                config.application_id@,
                config.redirect_uri@,
            ),
    {
        let (site, cloud_id) = config.region.authorization_site();
        let redirect = form_urlencode(config.redirect_uri.as_str());
        let application_id = form_urlencode(config.application_id.as_str());
        let cloud = decimal_text(cloud_id as u64);
        let mut url = String::from_str(site);
        url.append("/#/authorized-app?cloudId=");
        url.append(cloud.as_str());
        url.append("&applicationId=");
        url.append(application_id.as_str());
        url.append("&redirectUrl=");
        url.append(redirect.as_str());
        url
    }
}

/// The settings to keep after the settings screen was accepted: the secret
/// for the key ring, the rest for the database.
pub struct PreparedApiConfiguration {
    pub secret: String,
    pub stored: StoredApiConfiguration,
}

/// The host of a redirect address names this machine.
pub open spec fn is_local_host(host: Option<Seq<char>>) -> bool {
    host == Some("127.0.0.1"@) || host == Some("localhost"@)
}

fn local_host(host: &Option<String>) -> (r: bool)
    ensures
        r == is_local_host(match host {
            Some(h) => Some(h@),
            None => None,
        }),
{
    match host {
        Some(h) => str_equals(h.as_str(), "127.0.0.1") || str_equals(h.as_str(), "localhost"),
        None => false,
    }
}

/// Checks the settings the user entered: app key, secret and application id
/// must not be blank; the redirect address must parse and point at this
/// machine. The keys are kept trimmed, the redirect address as entered.
pub fn prepare_api_configuration(config: ApiConfigurationInput) -> (r: Result<PreparedApiConfiguration, ServiceError>)
    ensures
        trimmed(config.app_key@).len() == 0 || trimmed(config.application_id@).len() == 0 || trimmed(config.secret_key@).len() == 0
            ==> is_configuration_error(r, "AppKey, Secret key ve Application ID zorunludur"@),
        !(trimmed(config.app_key@).len() == 0 || trimmed(config.application_id@).len() == 0 || trimmed(config.secret_key@).len() == 0)
            ==> match parsed_url(config.redirect_uri@) {
                None => is_url_error(r),
                Some(u) => if !is_local_host(u.host) {
                    is_configuration_error(r, "Redirect URI yalnızca yerel callback olmalıdır"@)
                } else {
                    (r matches Ok(p) && p.secret@ == trimmed(config.secret_key@)
                        && p.stored.app_key@ == trimmed(config.app_key@)
                        && p.stored.application_id@ == trimmed(config.application_id@)
                        && p.stored.region == config.region
                        && p.stored.redirect_uri@ == config.redirect_uri@)
                },
            },
{
    let app_key = trim(config.app_key.as_str());
    let application_id = trim(config.application_id.as_str());
    let secret = trim(config.secret_key.as_str());
    if app_key.is_empty() || application_id.is_empty() || secret.is_empty() {
        return Err(ServiceError::Configuration(String::from_str("AppKey, Secret key ve Application ID zorunludur")));
    }
    let redirect = match parse_url(config.redirect_uri.as_str()) {
        Ok(u) => u,
        Err(e) => { return Err(ServiceError::Url(e)); },
    };
    if !local_host(&redirect.host) {
        return Err(ServiceError::Configuration(String::from_str("Redirect URI yalnızca yerel callback olmalıdır")));
    }
    let stored = StoredApiConfiguration {
        app_key: String::from_str(app_key),
        application_id: String::from_str(application_id),
        region: config.region,
        redirect_uri: config.redirect_uri,
    };
    Ok(PreparedApiConfiguration { secret: String::from_str(secret), stored })
}

/// The local port the callback server listens on: the redirect address must
/// parse, use plain HTTP and point at this machine; its port is the explicit
/// one or HTTP's default.
pub fn callback_port(config: &StoredApiConfiguration) -> (r: Result<u16, ServiceError>)
    ensures
        match parsed_url(config.redirect_uri@) {
            None => is_url_error(r),
            Some(u) => if u.scheme != "http"@ || !is_local_host(u.host) {
                is_configuration_error(r, "Masaüstü OAuth callback'i localhost HTTP adresi olmalıdır"@)
            } else {
                match u.port {
                    Some(p) => r == Ok::<u16, ServiceError>(p),
                    None => is_configuration_error(r, "OAuth callback portu eksik"@),
                }
            },
        },
{
    let redirect = match parse_url(config.redirect_uri.as_str()) {
        Ok(u) => u,
        Err(e) => { return Err(ServiceError::Url(e)); },
    };
    if !str_equals(redirect.scheme.as_str(), "http") || !local_host(&redirect.host) {
        return Err(ServiceError::Configuration(String::from_str("Masaüstü OAuth callback'i localhost HTTP adresi olmalıdır")));
    }
    match redirect.port {
        Some(p) => Ok(p),
        None => Err(ServiceError::Configuration(String::from_str("OAuth callback portu eksik"))),
    }
}

/// What `String::from_utf8_lossy` makes of a byte string: its text, with
/// every invalid sequence replaced by U+FFFD.
pub uninterp spec fn utf8_lossy(bytes: Seq<u8>) -> Seq<char>;

/// `String::from_utf8_lossy`, as an owned string. std documents that valid
/// UTF-8 is decoded as it is.
#[verifier::external_body]
fn decode_lossy(bytes: &[u8]) -> (r: String)
    ensures
        r@ == utf8_lossy(bytes@),
        vstd::utf8::valid_utf8(bytes@) ==> r@ == vstd::utf8::decode_utf8(bytes@),
{
    String::from_utf8_lossy(bytes).into_owned()
}

/// The first line of a text, as `str::lines` yields it: nothing for an empty
/// text; else the text up to the first line feed, without a carriage return
/// right before it.
pub open spec fn first_line(s: Seq<char>) -> Option<Seq<char>> {
    if s.len() == 0 {
        None
    } else {
        let line = crate::text::before_first(s, '\n');
        if line.len() < s.len() && line.len() > 0 && line.last() == '\r' {
            Some(line.drop_last())
        } else {
            Some(line)
        }
    }
}

/// The whitespace-separated words of `s`, given that the word `current` is
/// being read (what `str::split_whitespace` yields).
pub open spec fn words_from(s: Seq<char>, current: Seq<char>) -> Seq<Seq<char>>
    decreases s.len(),
{
    if s.len() == 0 {
        if current.len() > 0 { seq![current] } else { Seq::empty() }
    } else if is_unicode_whitespace(s[0]) {
        let rest = words_from(s.drop_first(), Seq::empty());
        if current.len() > 0 { seq![current] + rest } else { rest }
    } else {
        words_from(s.drop_first(), current.push(s[0]))
    }
}

/// The whitespace-separated words of a text.
pub open spec fn words(s: Seq<char>) -> Seq<Seq<char>> {
    words_from(s, Seq::empty())
}

/// Splits a text into its whitespace-separated words.
pub fn split_words(s: &str) -> (r: Vec<String>)
    ensures
        r@.map_values(|w: String| w@) == words(s@),
{
    let n = s.unicode_len();
    let mut found: Vec<String> = Vec::new();
    let mut start: Option<usize> = None;
    let mut i: usize = 0;
    proof {
        assert(s@.subrange(0, n as int) == s@);
        assert(found@.map_values(|w: String| w@) =~= Seq::<Seq<char>>::empty());
    }
    while i < n
        invariant
            n == s@.len(),
            i <= n,
            start matches Some(st) ==> st < i && (forall|k: int| st <= k < i ==> !is_unicode_whitespace(#[trigger] s@[k])),
            words(s@) == found@.map_values(|w: String| w@) + words_from(
                s@.subrange(i as int, n as int),
                match start {
                    Some(st) => s@.subrange(st as int, i as int),
                    None => Seq::empty(),
                },
            ),
        decreases n - i,
    {
        let c = s.get_char(i);
        let ghost rest = s@.subrange(i as int, n as int);
        let ghost current = match start {
            Some(st) => s@.subrange(st as int, i as int),
            None => Seq::<char>::empty(),
        };
        proof {
            assert(rest[0] == c);
            assert(rest.drop_first() == s@.subrange(i + 1, n as int));
        }
        if is_whitespace(c) {
            let ghost before = found@.map_values(|w: String| w@);
            match start {
                Some(st) => {
                    found.push(String::from_str(s.substring_char(st, i)));
                    proof {
                        assert(found@.map_values(|w: String| w@) =~= before.push(current));
                        assert(before + (seq![current] + words_from(rest.drop_first(), Seq::empty()))
                            =~= before.push(current) + words_from(rest.drop_first(), Seq::empty()));
                    }
                },
                None => {},
            }
            start = None;
        } else {
            match start {
                Some(st) => {
                    proof {
                        assert(current.push(c) =~= s@.subrange(st as int, i + 1));
                    }
                },
                None => {
                    start = Some(i);
                    proof {
                        assert(Seq::<char>::empty().push(c) =~= s@.subrange(i as int, i + 1));
                    }
                },
            }
        }
        i = i + 1;
    }
    proof {
        let current = match start {
            Some(st) => s@.subrange(st as int, n as int),
            None => Seq::<char>::empty(),
        };
        assert(s@.subrange(n as int, n as int).len() == 0);
    }
    match start {
        Some(st) => {
            let ghost before = found@.map_values(|w: String| w@);
            found.push(String::from_str(s.substring_char(st, n)));
            proof {
                assert(found@.map_values(|w: String| w@) =~= before + seq![s@.subrange(st as int, n as int)]);
            }
        },
        None => {
            proof {
                assert(found@.map_values(|w: String| w@) =~= found@.map_values(|w: String| w@) + Seq::<Seq<char>>::empty());
            }
        },
    }
    found
}

fn is_whitespace(c: char) -> (r: bool)
    ensures
        r == is_unicode_whitespace(c),
{
    ('\u{9}' <= c && c <= '\u{d}') || c == ' ' || c == '\u{85}' || c == '\u{a0}' || c == '\u{1680}'
        || ('\u{2000}' <= c && c <= '\u{200a}') || c == '\u{2028}' || c == '\u{2029}' || c == '\u{202f}'
        || c == '\u{205f}' || c == '\u{3000}'
}

proof fn lemma_before_first_len(s: Seq<char>, c: char)
    ensures
        crate::text::before_first(s, c).len() <= s.len(),
        crate::text::before_first(s, c).len() < s.len() ==> s[crate::text::before_first(s, c).len() as int] == c,
        forall|i: int| 0 <= i < crate::text::before_first(s, c).len() ==> #[trigger] crate::text::before_first(s, c)[i] == s[i],
    decreases s.len(),
{
    if s.len() > 0 && s[0] != c {
        lemma_before_first_len(s.drop_first(), c);
        let rest = crate::text::before_first(s.drop_first(), c);
        assert forall|i: int| 0 <= i < crate::text::before_first(s, c).len() implies #[trigger] crate::text::before_first(s, c)[i] == s[i] by {
            if i > 0 {
                assert(crate::text::before_first(s, c)[i] == rest[i - 1]);
            }
        }
    }
}

/// The first line of a text.
pub fn first_line_of(s: &str) -> (r: Option<String>)
    ensures
        match first_line(s@) {
            Some(line) => r matches Some(l) && l@ == line,
            None => r is None,
        },
{
    let n = s.unicode_len();
    if n == 0 {
        return None;
    }
    let line = crate::text::split_first_part(s, '\n');
    proof {
        lemma_before_first_len(s@, '\n');
    }
    let m = line.as_str().unicode_len();
    if m < n && m > 0 && line.as_str().get_char(m - 1) == '\r' {
        proof {
            assert(line@.last() == line@[m - 1]);
        }
        let trimmed_line = line.as_str().substring_char(0, m - 1);
        proof {
            assert(trimmed_line@ =~= line@.drop_last());
        }
        Some(String::from_str(trimmed_line))
    } else {
        Some(line)
    }
}

/// The request target of a callback request: the second word of its first line.
pub open spec fn callback_target(text: Seq<char>) -> Option<Seq<char>> {
    match first_line(text) {
        None => None,
        Some(line) => if words(line).len() > 1 { Some(words(line)[1]) } else { None },
    }
}

/// The value of the first query pair named `code`.
pub open spec fn code_of(pairs: Seq<(Seq<char>, Seq<char>)>) -> Option<Seq<char>>
    decreases pairs.len(),
{
    if pairs.len() == 0 {
        None
    } else if pairs[0].0 == "code"@ {
        Some(pairs[0].1)
    } else {
        code_of(pairs.drop_first())
    }
}

/// Reads the authorization code out of the raw bytes of the browser's
/// callback request: the request target of its first line, resolved against
/// `http://127.0.0.1`, and the first `code` of its query. `Ok(None)` when the
/// query has no code.
pub fn callback_code(request: &[u8]) -> (r: Result<Option<String>, ServiceError>)
    ensures
        match callback_target(utf8_lossy(request@)) {
            None => is_api_error(r, "OAuth callback isteği okunamadı"@),
            Some(target) => match parsed_url("http://127.0.0.1"@ + target) {
                None => is_url_error(r),
                Some(u) => match r {
                    Ok(code) => match code {
                        Some(c) => code_of(u.query_pairs) == Some(c@),
                        None => code_of(u.query_pairs) is None,
                    },
                    Err(_) => false,
                },
            },
        },
{
    let text = decode_lossy(request);
    let line = match first_line_of(text.as_str()) {
        Some(line) => line,
        None => { return Err(ServiceError::Api(String::from_str("OAuth callback isteği okunamadı"))); },
    };
    let parts = split_words(line.as_str());
    proof {
        assert(parts@.map_values(|w: String| w@).len() == parts@.len());
    }
    if parts.len() < 2 {
        return Err(ServiceError::Api(String::from_str("OAuth callback isteği okunamadı")));
    }
    proof {
        assert(parts@.map_values(|w: String| w@)[1] == parts@[1]@);
    }
    let mut address = String::from_str("http://127.0.0.1");
    address.append(parts[1].as_str());
    let callback = match parse_url(address.as_str()) {
        Ok(u) => u,
        Err(e) => { return Err(ServiceError::Url(e)); },
    };
    Ok(query_code(&callback))
}

/// The first `code` among the decoded query pairs of a parsed URL.
pub fn query_code(callback: &ParsedUrl) -> (r: Option<String>)
    ensures
        match code_of(callback@.query_pairs) {
            Some(c) => r matches Some(v) && v@ == c,
            None => r is None,
        },
{
    let ghost pairs = callback@.query_pairs;
    let mut i: usize = 0;
    proof {
        assert(pairs.subrange(0, pairs.len() as int) == pairs);
    }
    while i < callback.query_pairs.len()
        invariant
            i <= callback.query_pairs@.len(),
            pairs == callback@.query_pairs,
            code_of(pairs) == code_of(pairs.subrange(i as int, pairs.len() as int)),
        decreases callback.query_pairs@.len() - i,
    {
        let ghost rest = pairs.subrange(i as int, pairs.len() as int);
        proof {
            assert(rest[0] == (callback.query_pairs@[i as int].0@, callback.query_pairs@[i as int].1@));
            assert(rest.drop_first() == pairs.subrange(i + 1, pairs.len() as int));
        }
        if str_equals(callback.query_pairs[i].0.as_str(), "code") {
            let value = callback.query_pairs[i].1.clone();
            proof {
                assert(rest[0].0 == "code"@);
                assert(code_of(rest) == Some(rest[0].1));
                assert(value@ == rest[0].1);
            }
            return Some(value);
        }
        i = i + 1;
    }
    None
}

/// The code the flow goes on with, or the error that the callback carried none.
pub fn authorization_code(code: Option<String>) -> (r: Result<String, ServiceError>)
    ensures
        match code {
            Some(c) => r matches Ok(v) && v@ == c@,
            None => is_api_error(r, "iSolarCloud callback'inde authorization code bulunamadı"@),
        },
{
    match code {
        Some(c) => Ok(c),
        None => Err(ServiceError::Api(String::from_str("iSolarCloud callback'inde authorization code bulunamadı"))),
    }
}

/// The page shown in the browser after the callback: a green confirmation
/// when a code arrived, a red notice otherwise.
pub open spec fn callback_page(code_found: bool) -> Seq<char> {
    let (title, detail, color) = if code_found {
        ("Yetkilendirme kodu alındı."@, "Token doğrulaması için Comparison App'e dönebilirsiniz."@, "#39d98a"@)
    } else {
        (
            "Yetkilendirme tamamlanamadı."@,
            "Callback içinde authorization code bulunamadı. Comparison App'e dönüp tekrar deneyin."@,
            "#ff7068"@,
        )
    };
    "<!doctype html><meta charset=utf-8><title>Comparison App</title><style>body{font:16px system-ui;background:#0b1326;color:#dae2fd;display:grid;place-items:center;height:100vh;margin:0}div{padding:32px;border:1px solid #404751;border-radius:14px;background:#171f33}b{color:"@
        + color + "}</style><div><b>"@ + title + "</b><p>"@ + detail + "</p></div>"@
}

/// The HTTP response that carries the callback page.
pub open spec fn callback_response_text(code_found: bool) -> Seq<char> {
    "HTTP/1.1 200 OK\r\nContent-Type: text/html; charset=utf-8\r\nContent-Length: "@
        + decimal((crate::text::utf8_encode(callback_page(code_found)).len() as usize) as nat)
        + "\r\nConnection: close\r\n\r\n"@ + callback_page(code_found)
}

/// Builds the HTTP response the callback server sends back to the browser.
pub fn callback_response(code_found: bool) -> (r: String)
    ensures
        r@ == callback_response_text(code_found),
{
    let title: &str;
    let detail: &str;
    let color: &str;
    if code_found {
        title = "Yetkilendirme kodu alındı.";
        detail = "Token doğrulaması için Comparison App'e dönebilirsiniz.";
        color = "#39d98a";
    } else {
        title = "Yetkilendirme tamamlanamadı.";
        detail = "Callback içinde authorization code bulunamadı. Comparison App'e dönüp tekrar deneyin.";
        color = "#ff7068";
    }
    let mut html = String::from_str("<!doctype html><meta charset=utf-8><title>Comparison App</title><style>body{font:16px system-ui;background:#0b1326;color:#dae2fd;display:grid;place-items:center;height:100vh;margin:0}div{padding:32px;border:1px solid #404751;border-radius:14px;background:#171f33}b{color:");
    html.append(color);
    html.append("}</style><div><b>");
    html.append(title);
    html.append("</b><p>");
    html.append(detail);
    html.append("</p></div>");
    let length = decimal_text(html.as_str().len() as u64);
    let mut response = String::from_str("HTTP/1.1 200 OK\r\nContent-Type: text/html; charset=utf-8\r\nContent-Length: ");
    response.append(length.as_str());
    response.append("\r\nConnection: close\r\n\r\n");
    response.append(html.as_str());
    response
}

} // verus!
