//! Finding, downloading and installing the MuMu installers.
use vstd::prelude::*;

use crate::decimal::{decimal, format_i32, format_u64, parse_u64, parse_unsigned, signed_decimal};
use crate::paths::{path1, path2, PathSpec};
use crate::text::{
    chars_of, concat, concat3, contains, has_substring, lowercase, owned, same_text, string_of,
    to_lowercase,
};

verus! {

// ---------------------------------------------------------------------------
// Responses of the download API
// ---------------------------------------------------------------------------

/// A download link with its checksum.
pub struct DownloadLink {
    pub link: String,
    pub checksum: String,
}

/// The `data` part of a 4.x/5.x download API response.
pub struct DownloadData {
    pub mumu: Option<DownloadLink>,
    pub engine: Option<String>,
    pub version: Option<String>,
    pub architecture: Option<String>,
}

/// A 4.x/5.x download API response.
pub struct DownloadResponse {
    pub errcode: i32,
    pub errmsg: String,
    pub data: Option<DownloadData>,
    pub sign: Option<String>,
}

/// One installable component of a 6.x release.
pub struct V6Component {
    pub name: String,
    pub version: String,
    pub checksum: String,
    pub link: String,
    pub size: i64,
}

/// The `data` part of a 6.x download API response.
pub struct V6DownloadData {
    pub engine: Option<String>,
    pub version: Option<String>,
    pub architecture: Option<String>,
    pub components: Option<Vec<V6Component>>,
    pub default_download_engine: Option<String>,
}

/// A 6.x download API response.
pub struct V6DownloadResponse {
    pub errcode: i32,
    pub errmsg: String,
    pub data: Option<V6DownloadData>,
    pub sign: Option<String>,
}

/// What the tool reports of a 6.x release.
pub struct V6Release {
    pub version: String,
    pub components: Vec<V6Component>,
    pub default_download_engine: String,
}

/// The text reported when the API answers with an error code.
pub open spec fn api_error_text(errcode: i32, errmsg: Seq<char>) -> Seq<char> {
    "API返回错误: "@ + signed_decimal(errcode as int) + " - "@ + errmsg
}

/// The decimal text of a signed integer, as a string.
pub fn signed_text(n: i32) -> (r: String)
    ensures
        r@ == signed_decimal(n as int),
{
    let v = format_i32(n);
    string_of(v.as_slice())
}

/// The decimal text of an unsigned integer, as a string.
pub fn unsigned_text(n: u64) -> (r: String)
    ensures
        r@ == decimal(n as nat),
{
    let v = format_u64(n);
    string_of(v.as_slice())
}

fn api_error(errcode: i32, errmsg: &str) -> (r: String)
    ensures
        r@ == api_error_text(errcode, errmsg@),
{
    let code = signed_text(errcode);
    let mut r = owned("API返回错误: ");
    r.append(code.as_str());
    r.append(" - ");
    r.append(errmsg);
    r
}

/// The installer link of a 4.x/5.x response: an error unless the code is
/// 100, then the `data.mumu.link`, or an error when there is none.
pub fn download_link(resp: DownloadResponse) -> (r: Result<String, String>)
    ensures
        resp.errcode != 100 ==> r is Err && r->Err_0@ == api_error_text(resp.errcode, resp.errmsg@),
        resp.errcode == 100 && resp.data is Some && resp.data->0.mumu is Some ==> r == Ok::<
            String,
            String,
        >(resp.data->0.mumu->0.link),
        resp.errcode == 100 && !(resp.data matches Some(d) && d.mumu is Some) ==> r is Err
            && r->Err_0@ == "响应中未找到下载链接"@,
{
    if resp.errcode != 100 {
        return Err(api_error(resp.errcode, resp.errmsg.as_str()));
    }
    match resp.data {
        Some(d) => match d.mumu {
            Some(m) => Ok(m.link),
            None => Err(owned("响应中未找到下载链接")),
        },
        None => Err(owned("响应中未找到下载链接")),
    }
}

/// The release a 6.x response describes: an error unless the code is 100,
/// an error when there is no `data`, else its version, components and
/// default download engine (empty when absent).
pub fn v6_release(resp: V6DownloadResponse) -> (r: Result<V6Release, String>)
    ensures
        resp.errcode != 100 ==> r is Err && r->Err_0@ == api_error_text(resp.errcode, resp.errmsg@),
        resp.errcode == 100 && resp.data is None ==> r is Err && r->Err_0@ == "响应中未找到data"@,
        resp.errcode == 100 && resp.data is Some ==> r is Ok && (match resp.data->0.version {
            Some(v) => r->Ok_0.version@ == v@,
            None => r->Ok_0.version@ == Seq::<char>::empty(),
        }) && (match resp.data->0.components {
            Some(c) => r->Ok_0.components == c,
            None => r->Ok_0.components@.len() == 0,
        }) && (match resp.data->0.default_download_engine {
            Some(e) => r->Ok_0.default_download_engine@ == e@,
            None => r->Ok_0.default_download_engine@ == Seq::<char>::empty(),
        }),
{
    if resp.errcode != 100 {
        return Err(api_error(resp.errcode, resp.errmsg.as_str()));
    }
    match resp.data {
        None => Err(owned("响应中未找到data")),
        Some(d) => {
            let version = match d.version {
                Some(v) => v,
                None => String::new(),
            };
            let components = match d.components {
                Some(c) => c,
                None => Vec::new(),
            };
            let default_download_engine = match d.default_download_engine {
                Some(e) => e,
                None => String::new(),
            };
            Ok(V6Release { version, components, default_download_engine })
        },
    }
}

// ---------------------------------------------------------------------------
// Which release, and how to ask for its link
// ---------------------------------------------------------------------------

/// The emulator releases whose installer the tool can fetch.
pub enum InstallerVersion {
    V4,
    V5,
    V6,
}

/// The release named by the version selector (`fetch_download_url`):
/// `MuMu12-V4`, `MuMu12-V5` or `MuMu12-V6`; anything else is refused.
pub fn installer_version(version: &str) -> (r: Result<InstallerVersion, String>)
    ensures
        version@ == "MuMu12-V4"@ ==> r matches Ok(InstallerVersion::V4),
        version@ == "MuMu12-V5"@ ==> r matches Ok(InstallerVersion::V5),
        version@ == "MuMu12-V6"@ ==> r matches Ok(InstallerVersion::V6),
        version@ != "MuMu12-V4"@ && version@ != "MuMu12-V5"@ && version@ != "MuMu12-V6"@ ==> r is Err
            && r->Err_0@ == "仅支持MuMu-V4V5V6版本获取"@,
{
    proof {
        reveal_strlit("MuMu12-V4");
        reveal_strlit("MuMu12-V5");
        reveal_strlit("MuMu12-V6");
        assert("MuMu12-V4"@[8] == '4');
        assert("MuMu12-V5"@[8] == '5');
        assert("MuMu12-V6"@[8] == '6');
    }
    if same_text(version, "MuMu12-V4") {
        Ok(InstallerVersion::V4)
    } else if same_text(version, "MuMu12-V5") {
        Ok(InstallerVersion::V5)
    } else if same_text(version, "MuMu12-V6") {
        Ok(InstallerVersion::V6)
    } else {
        Err(owned("仅支持MuMu-V4V5V6版本获取"))
    }
}

/// The API address that hands out the installer of a release.
pub open spec fn endpoint_of(v: InstallerVersion) -> Seq<char> {
    match v {
        InstallerVersion::V4 => "https://mumu.nie.netease.com/api/v1/download/nemux"@,
        InstallerVersion::V5 => "https://api.mumu.nie.netease.com/api/v1/download/nx"@,
        InstallerVersion::V6 => "https://api.mumu.nie.netease.com/api/v2/download/nx"@,
    }
}

/// The API address that hands out the installer of a release.
pub fn api_endpoint(v: &InstallerVersion) -> (r: String)
    ensures
        r@ == endpoint_of(*v),
        *v is V6 ==> r@ == "https://api.mumu.nie.netease.com/api/v2/download/nx"@,
        *v is V5 ==> r@ == "https://api.mumu.nie.netease.com/api/v1/download/nx"@,
        *v is V4 ==> r@ == "https://mumu.nie.netease.com/api/v1/download/nemux"@,
{
    match v {
        InstallerVersion::V4 => owned("https://mumu.nie.netease.com/api/v1/download/nemux"),
        InstallerVersion::V5 => owned("https://api.mumu.nie.netease.com/api/v1/download/nx"),
        InstallerVersion::V6 => owned("https://api.mumu.nie.netease.com/api/v2/download/nx"),
    }
}

/// Each release is fetched from its own address: 6.x from the v2 `nx`
/// endpoint, 5.x from the v1 `nx` endpoint, 4.x from the `nemux` endpoint,
/// and no two releases share an address.
pub proof fn law_endpoints_per_release()
    ensures
        endpoint_of(InstallerVersion::V6) == "https://api.mumu.nie.netease.com/api/v2/download/nx"@,
        endpoint_of(InstallerVersion::V5) == "https://api.mumu.nie.netease.com/api/v1/download/nx"@,
        endpoint_of(InstallerVersion::V4) == "https://mumu.nie.netease.com/api/v1/download/nemux"@,
        forall|a: InstallerVersion, b: InstallerVersion|
            #![trigger endpoint_of(a), endpoint_of(b)]
            endpoint_of(a) == endpoint_of(b) ==> a == b,
{
    reveal_strlit("https://api.mumu.nie.netease.com/api/v2/download/nx");
    reveal_strlit("https://api.mumu.nie.netease.com/api/v1/download/nx");
    reveal_strlit("https://mumu.nie.netease.com/api/v1/download/nemux");
    let v4 = endpoint_of(InstallerVersion::V4);
    let v5 = endpoint_of(InstallerVersion::V5);
    let v6 = endpoint_of(InstallerVersion::V6);
    assert(v4[8] == 'm' && v5[8] == 'a' && v6[8] == 'a');
    assert(v5[38] == '1' && v6[38] == '2');
    assert forall|a: InstallerVersion, b: InstallerVersion|
        #![trigger endpoint_of(a), endpoint_of(b)]
        endpoint_of(a) == endpoint_of(b) implies a == b by {
        match a {
            InstallerVersion::V4 => match b {
                InstallerVersion::V4 => {},
                _ => assert(endpoint_of(a)[8] != endpoint_of(b)[8]),
            },
            InstallerVersion::V5 => match b {
                InstallerVersion::V4 => assert(endpoint_of(a)[8] != endpoint_of(b)[8]),
                InstallerVersion::V5 => {},
                InstallerVersion::V6 => assert(endpoint_of(a)[38] != endpoint_of(b)[38]),
            },
            InstallerVersion::V6 => match b {
                InstallerVersion::V4 => assert(endpoint_of(a)[8] != endpoint_of(b)[8]),
                InstallerVersion::V5 => assert(endpoint_of(a)[38] != endpoint_of(b)[38]),
                InstallerVersion::V6 => {},
            },
        }
    }
}

/// The text of `s` before its first `-` (all of it when there is none).
pub open spec fn before_first_dash(s: Seq<char>) -> Seq<char> {
    if s.contains('-') {
        s.take(s.index_of_first('-')->0)
    } else {
        s
    }
}

/// The part of a UUID's text before its first `-`, used to make the
/// installer name unique.
pub fn uuid_prefix(uuid_text: &str) -> (r: String)
    ensures
        r@.len() <= uuid_text@.len(),
        r@ == uuid_text@.take(r@.len() as int),
        !r@.contains('-'),
        r@.len() < uuid_text@.len() ==> uuid_text@[r@.len() as int] == '-',
{
    let v = chars_of(uuid_text);
    let n = v.len();
    let mut out: Vec<char> = Vec::new();
    let mut i: usize = 0;
    while i < n && v[i] != '-'
        invariant
            n == v@.len(),
            i <= n,
            v@ == uuid_text@,
            out@ == v@.take(i as int),
            forall|k: int| 0 <= k < i ==> v@[k] != '-',
        decreases n - i,
    {
        out.push(v[i]);
        assert(v@.take(i + 1) == v@.take(i as int).push(v@[i as int]));
        i = i + 1;
    }
    string_of(out.as_slice())
}

/// The machine description that the official downloader sends, URL-encoded.
pub open spec fn machine_info() -> Seq<char> {
    "%7B%0A%20%20%22base_board%22%3A%20%22Manufacturer%3AASUSTeK%20COMPUTER%20INC.%20Product%3ATUF%20GAMING%20B660M-PLUS%20WIFI%20D4%22%2C%0A%20%20%22cpu%22%3A%20%22Intel%20Core%20i5-12400F%206-Core%20Processor%22%2C%0A%20%20%22hard_disk%22%3A%20%5B%0A%20%20%20%20%22DRIVE_FIXED%28C%3A%5C%5C%29%3ATotal%20disk%20space%3A476.9GBFree%20disk%20space%3A198.3GB%22%2C%0A%20%20%20%20%22DRIVE_FIXED%28D%3A%5C%5C%29%3ATotal%20disk%20space%3A931.5GBFree%20disk%20space%3A612.4GB%22%0A%20%20%5D%2C%0A%20%20%22hyperv_opened%22%3A%201%2C%0A%20%20%22ip%22%3A%20%22202.173.8.23%22%2C%0A%20%20%22mac%22%3A%20%22FD%3A87%3A30%3A1F%3AC9%3A0B%22%2C%0A%20%20%22memory%22%3A%2016384%2C%0A%20%20%22os%22%3A%20%22Windows%2010%2064-bit%20Kernel%2010.0.19045%22%2C%0A%20%20%22screen%22%3A%20%7B%0A%20%20%20%20%22height%22%3A%201080%2C%0A%20%20%20%20%22width%22%3A%201920%0A%20%20%7D%2C%0A%20%20%22screen_list%22%3A%20%5B%0A%20%20%20%20%7B%0A%20%20%20%20%20%20%22dpr%22%3A%201%2C%0A%20%20%20%20%20%20%22height%22%3A%201080%2C%0A%20%20%20%20%20%20%22is_primary%22%3A%201%2C%0A%20%20%20%20%20%20%22width%22%3A%201920%0A%20%20%20%20%7D%0A%20%20%5D%2C%0A%20%20%22supported_install_arc%22%3A%20%22x86_64%22%2C%0A%20%20%22video%22%3A%20%5B%0A%20%20%20%20%22NVIDIA%20GeForce%20RTX%203060%22%0A%20%20%5D%2C%0A%20%20%22vt%22%3A%20%22%22%2C%0A%20%20%22vt_enabled%22%3A%201%2C%0A%20%20%22vt_supported%22%3A%200%0A%7D"@
}

fn machine_text() -> (r: &'static str)
    ensures
        r@ == machine_info(),
{
    "%7B%0A%20%20%22base_board%22%3A%20%22Manufacturer%3AASUSTeK%20COMPUTER%20INC.%20Product%3ATUF%20GAMING%20B660M-PLUS%20WIFI%20D4%22%2C%0A%20%20%22cpu%22%3A%20%22Intel%20Core%20i5-12400F%206-Core%20Processor%22%2C%0A%20%20%22hard_disk%22%3A%20%5B%0A%20%20%20%20%22DRIVE_FIXED%28C%3A%5C%5C%29%3ATotal%20disk%20space%3A476.9GBFree%20disk%20space%3A198.3GB%22%2C%0A%20%20%20%20%22DRIVE_FIXED%28D%3A%5C%5C%29%3ATotal%20disk%20space%3A931.5GBFree%20disk%20space%3A612.4GB%22%0A%20%20%5D%2C%0A%20%20%22hyperv_opened%22%3A%201%2C%0A%20%20%22ip%22%3A%20%22202.173.8.23%22%2C%0A%20%20%22mac%22%3A%20%22FD%3A87%3A30%3A1F%3AC9%3A0B%22%2C%0A%20%20%22memory%22%3A%2016384%2C%0A%20%20%22os%22%3A%20%22Windows%2010%2064-bit%20Kernel%2010.0.19045%22%2C%0A%20%20%22screen%22%3A%20%7B%0A%20%20%20%20%22height%22%3A%201080%2C%0A%20%20%20%20%22width%22%3A%201920%0A%20%20%7D%2C%0A%20%20%22screen_list%22%3A%20%5B%0A%20%20%20%20%7B%0A%20%20%20%20%20%20%22dpr%22%3A%201%2C%0A%20%20%20%20%20%20%22height%22%3A%201080%2C%0A%20%20%20%20%20%20%22is_primary%22%3A%201%2C%0A%20%20%20%20%20%20%22width%22%3A%201920%0A%20%20%20%20%7D%0A%20%20%5D%2C%0A%20%20%22supported_install_arc%22%3A%20%22x86_64%22%2C%0A%20%20%22video%22%3A%20%5B%0A%20%20%20%20%22NVIDIA%20GeForce%20RTX%203060%22%0A%20%20%5D%2C%0A%20%20%22vt%22%3A%20%22%22%2C%0A%20%20%22vt_enabled%22%3A%201%2C%0A%20%20%22vt_supported%22%3A%200%0A%7D"
}

/// The form fields sent to the API before the machine description.
pub open spec fn request_head(v: InstallerVersion) -> Seq<char> {
    match v {
        InstallerVersion::V4 => "architecture=x86_64&channel=V4.1.31.3724&detectinfo=&downloader_version=3.1.14.0&has_installed=0&language=zh-Hans&machine="@,
        InstallerVersion::V5 => "architecture=x86_64&channel=nochannel-mumu12&detectinfo=&downloader_version=5.0.2&has_installed=0&language=zh-Hans&machine="@,
        InstallerVersion::V6 => "architecture=x86_64&channel=nochannel-mumu12&detectinfo=&downloader_version=6.0.1&has_installed=1&language=zh-Hans&machine="@,
    }
}

/// The installer name sent to the API (`n`).
pub open spec fn request_name(v: InstallerVersion, uuid_text: Seq<char>) -> Seq<char> {
    match v {
        InstallerVersion::V4 => "MuMuInstaller_3.1.14_hoeCnNC"@,
        InstallerVersion::V5 => "MuMu_5.0.2_"@ + before_first_dash(uuid_text),
        InstallerVersion::V6 => "MuMu_6.0.1_"@ + before_first_dash(uuid_text),
    }
}

/// The whole form body of the request for a release's installer.
pub open spec fn request_body_text(v: InstallerVersion, uuid_text: Seq<char>) -> Seq<char> {
    request_head(v) + machine_info() + "&n="@ + request_name(v, uuid_text)
        + "&package=&product=&usage=0&uuid="@ + uuid_text
}

proof fn lemma_uuid_prefix_is_before_dash(s: Seq<char>, r: Seq<char>)
    requires
        r.len() <= s.len(),
        r == s.take(r.len() as int),
        !r.contains('-'),
        r.len() < s.len() ==> s[r.len() as int] == '-',
    ensures
        r == before_first_dash(s),
{
    if s.contains('-') {
        let k = s.index_of_first('-');
        s.index_of_first_ensures('-');
        let i = k->0;
        assert(r.len() < s.len()) by {
            if r.len() == s.len() {
                assert(r[i] == '-');
            }
        }
        if i < r.len() {
            assert(r[i] == '-');
        }
        assert(i == r.len());
    } else {
        if r.len() < s.len() {
            assert(s[r.len() as int] == '-');
        }
        assert(r =~= s);
    }
}

/// The form body of the request for a release's installer, with a fresh
/// UUID's text.
pub fn request_body(v: &InstallerVersion, uuid_text: &str) -> (r: String)
    ensures
        r@ == request_body_text(*v, uuid_text@),
{
    let mut r = match v {
        InstallerVersion::V4 => owned("architecture=x86_64&channel=V4.1.31.3724&detectinfo=&downloader_version=3.1.14.0&has_installed=0&language=zh-Hans&machine="),
        InstallerVersion::V5 => owned("architecture=x86_64&channel=nochannel-mumu12&detectinfo=&downloader_version=5.0.2&has_installed=0&language=zh-Hans&machine="),
        InstallerVersion::V6 => owned("architecture=x86_64&channel=nochannel-mumu12&detectinfo=&downloader_version=6.0.1&has_installed=1&language=zh-Hans&machine="),
    };
    r.append(machine_text());
    r.append("&n=");
    match v {
        InstallerVersion::V4 => {
            r.append("MuMuInstaller_3.1.14_hoeCnNC");
        },
        InstallerVersion::V5 => {
            let p = uuid_prefix(uuid_text);
            proof {
                lemma_uuid_prefix_is_before_dash(uuid_text@, p@);
            }
            r.append("MuMu_5.0.2_");
            r.append(p.as_str());
        },
        InstallerVersion::V6 => {
            let p = uuid_prefix(uuid_text);
            proof {
                lemma_uuid_prefix_is_before_dash(uuid_text@, p@);
            }
            r.append("MuMu_6.0.1_");
            r.append(p.as_str());
        },
    }
    r.append("&package=&product=&usage=0&uuid=");
    r.append(uuid_text);
    r
}

// ---------------------------------------------------------------------------
// Cancelling and pausing
// ---------------------------------------------------------------------------

/// The cancel and pause requests that running downloads obey.
pub struct DownloadControl {
    pub cancelled: bool,
    pub paused: bool,
}

/// The message with which a download stops: cancelling wins over pausing.
pub open spec fn interruption_of(c: DownloadControl) -> Option<Seq<char>> {
    if c.cancelled {
        Some("下载已取消"@)
    } else if c.paused {
        Some("下载已暂停"@)
    } else {
        None
    }
}

/// The state after the user cancels: downloads stop and any pause is lifted.
pub open spec fn after_cancel(c: DownloadControl) -> DownloadControl {
    DownloadControl { cancelled: true, paused: false }
}

/// The state after the user pauses.
pub open spec fn after_pause(c: DownloadControl) -> DownloadControl {
    DownloadControl { cancelled: c.cancelled, paused: true }
}

/// The state after the user resumes.
pub open spec fn after_resume(c: DownloadControl) -> DownloadControl {
    DownloadControl { cancelled: c.cancelled, paused: false }
}

/// The state when a download starts: an earlier cancel is forgotten, and so
/// is an earlier pause unless the download resumes one.
pub open spec fn after_start(c: DownloadControl, resume: bool) -> DownloadControl {
    DownloadControl { cancelled: false, paused: resume && c.paused }
}

impl DownloadControl {
    /// No request pending.
    pub fn new() -> (r: Self)
        ensures
            !r.cancelled,
            !r.paused,
    {
        DownloadControl { cancelled: false, paused: false }
    }

    /// The user cancels (`cancel_download`).
    pub fn cancel(&mut self)
        ensures
            *final(self) == after_cancel(*old(self)),
    {
        self.cancelled = true;
        self.paused = false;
    }

    /// The user pauses (`pause_download`).
    pub fn pause(&mut self)
        ensures
            *final(self) == after_pause(*old(self)),
    {
        self.paused = true;
    }

    /// The user resumes (`resume_download`).
    pub fn resume(&mut self)
        ensures
            *final(self) == after_resume(*old(self)),
    {
        self.paused = false;
    }

    /// A download starts, resuming a paused one or not.
    pub fn start(&mut self, resume: bool)
        ensures
            *final(self) == after_start(*old(self), resume),
    {
        self.cancelled = false;
        if !resume {
            self.paused = false;
        }
    }

    /// The message with which a download stops now, if it must.
    pub fn interruption(&self) -> (r: Option<String>)
        ensures
            match interruption_of(*self) {
                Some(m) => r is Some && r->0@ == m,
                None => r is None,
            },
    {
        if self.cancelled {
            Some(owned("下载已取消"))
        } else if self.paused {
            Some(owned("下载已暂停"))
        } else {
            None
        }
    }
}

/// A cancel stops running downloads with the cancel message, whatever state
/// came before, and a pause that follows does not change that message.
pub proof fn law_cancel_stops(c: DownloadControl)
    ensures
        interruption_of(after_cancel(c)) == Some("下载已取消"@),
        interruption_of(after_pause(after_cancel(c))) == Some("下载已取消"@),
{
}

/// A pause stops a download that was not cancelled with the pause message.
pub proof fn law_pause_stops(c: DownloadControl)
    requires
        !c.cancelled,
    ensures
        interruption_of(after_pause(c)) == Some("下载已暂停"@),
{
}

/// Resuming undoes a pause: pausing and then resuming leaves the same
/// state as resuming alone.
pub proof fn law_resume_undoes_pause(c: DownloadControl)
    ensures
        after_resume(after_pause(c)) == after_resume(c),
{
}

/// A download that starts afresh runs until a new request comes, and so
/// does one that resumes after the user resumed.
pub proof fn law_start_runs(c: DownloadControl)
    ensures
        interruption_of(after_start(c, false)) is None,
        interruption_of(after_start(after_resume(c), true)) is None,
{
}

/// Before each component of a 6.x download: a cancel stops the download
/// with the cancel message (a pause is left to the download itself).
pub fn cancel_before_component(control: &DownloadControl) -> (r: Option<String>)
    ensures
        control.cancelled ==> r is Some && r->0@ == "下载已取消"@,
        !control.cancelled ==> r is None,
{
    if control.cancelled {
        Some(owned("下载已取消"))
    } else {
        None
    }
}

/// The partially downloaded files that a cancel removes.
pub struct PartialFiles {
    pub files: Vec<String>,
}

/// The views of a list of strings.
pub open spec fn texts(v: Seq<String>) -> Seq<Seq<char>> {
    v.map_values(|s: String| s@)
}

impl PartialFiles {
    pub fn new() -> (r: Self)
        ensures
            r.files@.len() == 0,
    {
        PartialFiles { files: Vec::new() }
    }

    /// A download of `path` begins.
    pub fn track(&mut self, path: String)
        ensures
            final(self).files@ == old(self).files@.push(path),
    {
        self.files.push(path);
    }

    /// The download of `path` ended: every entry for it is dropped, the rest
    /// keep their order.
    pub fn untrack(&mut self, path: &str)
        ensures
            texts(final(self).files@) == texts(old(self).files@).filter(
                |t: Seq<char>| t != path@,
            ),
    {
        let mut old_files: Vec<String> = Vec::new();
        std::mem::swap(&mut old_files, &mut self.files);
        let ghost pred = |t: Seq<char>| t != path@;
        let n = old_files.len();
        let mut kept: Vec<String> = Vec::new();
        let mut i: usize = 0;
        while i < n
            invariant
                n == old_files@.len(),
                i <= n,
                old_files@ == old(self).files@,
                pred == (|t: Seq<char>| t != path@),
                texts(kept@) == texts(old_files@.take(i as int)).filter(pred),
            decreases n - i,
        {
            proof {
                reveal(Seq::filter);
                assert(texts(old_files@.take(i + 1)).drop_last() =~= texts(
                    old_files@.take(i as int),
                ));
                assert(texts(old_files@.take(i + 1)).last() == old_files@[i as int]@);
            }
            if !same_text(old_files[i].as_str(), path) {
                kept.push(old_files[i].clone());
                assert(texts(kept@) =~= texts(old_files@.take(i + 1)).filter(pred));
            } else {
                assert(texts(kept@) =~= texts(old_files@.take(i + 1)).filter(pred));
            }
            i = i + 1;
        }
        assert(old_files@.take(n as int) == old_files@);
        self.files = kept;
    }

    /// A cancel removes every tracked file: they are handed out and the list
    /// is emptied.
    pub fn take_all(&mut self) -> (r: Vec<String>)
        ensures
            r@ == old(self).files@,
            final(self).files@.len() == 0,
    {
        let mut r: Vec<String> = Vec::new();
        std::mem::swap(&mut r, &mut self.files);
        r
    }
}

/// Once a download has ended, its file is no longer among those a cancel
/// removes.
pub proof fn law_untracked_absent(before: Seq<String>, path: Seq<char>, after: Seq<String>)
    requires
        texts(after) == texts(before).filter(|t: Seq<char>| t != path),
    ensures
        forall|i: int| 0 <= i < after.len() ==> (#[trigger] after[i])@ != path,
{
    let p = |t: Seq<char>| t != path;
    assert forall|i: int| 0 <= i < after.len() implies (#[trigger] after[i])@ != path by {
        texts(before).lemma_filter_pred(p, i);
        assert(texts(after)[i] == after[i]@);
    }
}

// ---------------------------------------------------------------------------
// Sizes, ranges and resuming
// ---------------------------------------------------------------------------

/// The text after the last `/` (all of it when there is none).
pub open spec fn after_last_slash(s: Seq<char>) -> Seq<char>
    decreases s.len(),
{
    if s.len() == 0 {
        s
    } else if s.last() == '/' {
        Seq::empty()
    } else {
        after_last_slash(s.drop_last()).push(s.last())
    }
}

/// The text after the last `/` of a `Content-Range` value, read as a
/// number: the total size of the resource.
pub open spec fn range_total(header: Seq<char>) -> Option<nat> {
    parse_unsigned(after_last_slash(header), u64::MAX as nat)
}

fn after_last_slash_chars(s: &[char]) -> (r: Vec<char>)
    ensures
        r@ == after_last_slash(s@),
{
    let n = s.len();
    let mut r: Vec<char> = Vec::new();
    for i in 0..n
        invariant
            n == s@.len(),
            r@ == after_last_slash(s@.take(i as int)),
    {
        assert(s@.take(i + 1).drop_last() == s@.take(i as int));
        if s[i] == '/' {
            r = Vec::new();
            assert(r@ =~= after_last_slash(s@.take(i + 1)));
        } else {
            r.push(s[i]);
        }
    }
    assert(s@.take(n as int) == s@);
    r
}

/// The total size announced by a `Content-Range` header value.
pub fn content_range_total(header: &str) -> (r: Option<u64>)
    ensures
        match range_total(header@) {
            Some(v) => r == Some(v as u64),
            None => r is None,
        },
{
    let h = chars_of(header);
    let tail = after_last_slash_chars(h.as_slice());
    parse_u64(tail.as_slice())
}

/// The total size learned from probing the resource with a one-byte range
/// request: from `Content-Range` on a partial answer (falling back to
/// `Content-Length`), else from `Content-Length`; 0 when unknown.
pub fn probed_total(partial: bool, content_range: Option<String>, content_length: Option<u64>) -> (r: u64)
    ensures
        partial && content_range is Some && range_total(content_range->0@) is Some ==> r
            == range_total(content_range->0@)->0,
        partial && !(content_range is Some && range_total(content_range->0@) is Some) ==> r == (
        match content_length {
            Some(l) => l,
            None => 0,
        }),
        !partial ==> r == (match content_length {
            Some(l) => l,
            None => 0,
        }),
{
    let fallback = match content_length {
        Some(l) => l,
        None => 0,
    };
    if partial {
        match content_range {
            Some(h) => match content_range_total(h.as_str()) {
                Some(t) => t,
                None => fallback,
            },
            None => fallback,
        }
    } else {
        fallback
    }
}

/// The size to download against: the size given in advance when there is
/// one, else the probed size (0 when probing failed).
pub fn download_total(known_size: u64, probed: Option<u64>) -> (r: u64)
    ensures
        known_size > 0 ==> r == known_size,
        known_size == 0 ==> r == (match probed {
            Some(p) => p,
            None => 0,
        }),
{
    if known_size > 0 {
        known_size
    } else {
        match probed {
            Some(p) => p,
            None => 0,
        }
    }
}

/// How the built-in downloader starts with what is already on disk.
pub enum ResumePlan {
    /// The file is already complete.
    Complete,
    /// Nothing is there: download from the start.
    Fresh,
    /// Ask for the rest with the given `Range` header value.
    Resume { from: u64, range: String },
}

/// How to start (`download_via_reqwest`): a file at least as large as a
/// known total is complete; a partial file is continued with a range
/// request; else the download starts from the beginning.
pub fn resume_plan(existing_size: u64, total_size: u64) -> (r: ResumePlan)
    ensures
        existing_size > 0 && total_size > 0 && existing_size >= total_size ==> r is Complete,
        existing_size > 0 && !(total_size > 0 && existing_size >= total_size) ==> (r matches ResumePlan::Resume {
            from,
            range,
        } && from == existing_size && range@ == "bytes="@ + decimal(existing_size as nat) + "-"@),
        existing_size == 0 ==> r is Fresh,
{
    if existing_size > 0 && total_size > 0 && existing_size >= total_size {
        ResumePlan::Complete
    } else if existing_size > 0 {
        let n = unsigned_text(existing_size);
        ResumePlan::Resume { from: existing_size, range: concat3("bytes=", n.as_str(), "-") }
    } else {
        ResumePlan::Fresh
    }
}

/// What to do with the answer to a download request.
pub enum ResponsePlan {
    /// The server ignored the range: ask again for the whole file.
    Restart,
    /// The download failed with this message.
    Fail(String),
    /// Write the body after `start` bytes, against `total` bytes.
    Stream { total: u64, start: u64 },
}

/// The total to report while streaming an answer.
pub open spec fn stream_total(total_size: u64, partial: bool, content_range: Option<Seq<char>>, content_length: Option<u64>) -> u64 {
    if total_size > 0 {
        total_size
    } else if partial && content_range is Some && range_total(content_range->0) is Some {
        range_total(content_range->0)->0 as u64
    } else {
        match content_length {
            Some(l) => l,
            None => 0,
        }
    }
}

/// A known size always wins: whenever the size of the download is known in
/// advance, the total streamed against is that size, whether the answer is
/// partial or whole and whatever its headers announce.
pub proof fn law_known_total_kept(
    total_size: u64,
    partial: bool,
    content_range: Option<Seq<char>>,
    content_length: Option<u64>,
)
    requires
        total_size > 0,
    ensures
        stream_total(total_size, partial, content_range, content_length) == total_size,
{
}

/// The failure text for an HTTP status that is not a success.
pub open spec fn http_failure(status: Seq<char>) -> Seq<char> {
    "下载失败: HTTP "@ + status
}

/// What to do with the answer (`download_via_reqwest`): a resumed request
/// answered without a partial body restarts from zero; an answer that is
/// neither a success nor partial fails; else the body is streamed after the
/// bytes already on disk.
pub fn response_plan(
    existing_size: u64,
    total_size: u64,
    partial: bool,
    success: bool,
    status: &str,
    content_range: Option<String>,
    content_length: Option<u64>,
) -> (r: ResponsePlan)
    ensures
        existing_size > 0 && !partial ==> r is Restart,
        !(existing_size > 0 && !partial) && !success && !partial ==> r is Fail && r->Fail_0@
            == http_failure(status@),
        !(existing_size > 0 && !partial) && (success || partial) ==> (r matches ResponsePlan::Stream {
            total,
            start,
        } && start == existing_size && total == stream_total(
            total_size,
            partial,
            match content_range {
                Some(h) => Some(h@),
                None => None,
            },
            content_length,
        )),
        !(existing_size > 0 && !partial) && (success || partial) && total_size > 0 ==> (r matches ResponsePlan::Stream {
            total,
            start,
        } && total == total_size && start == existing_size),
{
    if existing_size > 0 && !partial {
        return ResponsePlan::Restart;
    }
    if !success && !partial {
        return ResponsePlan::Fail(concat("下载失败: HTTP ", status));
    }
    let total = if total_size > 0 {
        total_size
    } else if partial {
        probed_total(true, content_range, content_length)
    } else {
        match content_length {
            Some(l) => l,
            None => 0,
        }
    };
    ResponsePlan::Stream { total, start: existing_size }
}

/// The total after restarting a resumed download from zero: an answer that
/// is not a success fails, else the known total or the `Content-Length`.
pub fn restart_total(total_size: u64, success: bool, status: &str, content_length: Option<u64>) -> (r: Result<u64, String>)
    ensures
        !success ==> r is Err && r->Err_0@ == http_failure(status@),
        success && total_size > 0 ==> r == Ok::<u64, String>(total_size),
        success && total_size == 0 ==> r == Ok::<u64, String>(
            match content_length {
                Some(l) => l,
                None => 0,
            },
        ),
{
    if !success {
        return Err(concat("下载失败: HTTP ", status));
    }
    if total_size > 0 {
        Ok(total_size)
    } else {
        match content_length {
            Some(l) => Ok(l),
            None => Ok(0),
        }
    }
}

// ---------------------------------------------------------------------------
// aria2
// ---------------------------------------------------------------------------

/// The views of a list of strings.
pub open spec fn arg_texts(v: Seq<String>) -> Seq<Seq<char>> {
    v.map_values(|s: String| s@)
}

/// The arguments aria2 is started with for one download.
pub open spec fn aria2_arg_texts(max_connections: u32, split: u32, dir: Seq<char>, filename: Seq<char>, url: Seq<char>) -> Seq<Seq<char>> {
    seq![
        "--allow-overwrite=true"@,
        "--file-allocation=none"@,
        "--continue=true"@,
        "--max-connection-per-server"@,
        decimal(max_connections as nat),
        "--split"@,
        decimal(split as nat),
        "--console-log-level=error"@,
        "--dir"@,
        dir,
        "--out"@,
        filename,
        url,
    ]
}

/// The arguments aria2 is started with (`download_via_aria2`).
pub fn aria2_args(max_connections: u32, split: u32, dir: &str, filename: &str, url: &str) -> (r: Vec<String>)
    ensures
        arg_texts(r@) == aria2_arg_texts(max_connections, split, dir@, filename@, url@),
{
    let mut r: Vec<String> = Vec::new();
    r.push(owned("--allow-overwrite=true"));
    r.push(owned("--file-allocation=none"));
    r.push(owned("--continue=true"));
    r.push(owned("--max-connection-per-server"));
    r.push(unsigned_text(max_connections as u64));
    r.push(owned("--split"));
    r.push(unsigned_text(split as u64));
    r.push(owned("--console-log-level=error"));
    r.push(owned("--dir"));
    r.push(owned(dir));
    r.push(owned("--out"));
    r.push(owned(filename));
    r.push(owned(url));
    assert(arg_texts(r@) =~= aria2_arg_texts(max_connections, split, dir@, filename@, url@));
    r
}

/// Whether an aria2 run counts as a finished download: not cancelled or
/// paused meanwhile, exited successfully, and the file is there.
pub fn aria2_finished(control: &DownloadControl, exited_ok: bool, file_exists: bool) -> (r: bool)
    ensures
        r == (!control.cancelled && !control.paused && exited_ok && file_exists),
{
    !control.cancelled && !control.paused && exited_ok && file_exists
}

/// What follows an aria2 attempt.
pub enum AfterAria2 {
    Done,
    Cancelled,
    Paused,
    FallBack,
}

/// What follows an aria2 attempt (`download_file`): success ends it; a
/// cancel or pause stops without falling back; any other failure falls back
/// to the built-in downloader.
pub fn after_aria2(ok: bool, control: &DownloadControl) -> (r: AfterAria2)
    ensures
        ok ==> r is Done,
        !ok && control.cancelled ==> r is Cancelled,
        !ok && !control.cancelled && control.paused ==> r is Paused,
        !ok && !control.cancelled && !control.paused ==> r is FallBack,
{
    if ok {
        AfterAria2::Done
    } else if control.cancelled {
        AfterAria2::Cancelled
    } else if control.paused {
        AfterAria2::Paused
    } else {
        AfterAria2::FallBack
    }
}

/// The names under which an aria2 executable may be found in a directory.
pub fn aria2_executable_names() -> (r: Vec<String>)
    ensures
        arg_texts(r@) == seq!["aria2c.exe"@, "aria2c"@, "aria2.exe"@],
{
    let mut r: Vec<String> = Vec::new();
    r.push(owned("aria2c.exe"));
    r.push(owned("aria2c"));
    r.push(owned("aria2.exe"));
    assert(arg_texts(r@) =~= seq!["aria2c.exe"@, "aria2c"@, "aria2.exe"@]);
    r
}

/// A location as (base, names below it).
pub open spec fn location(p: PathSpec) -> (Seq<char>, Seq<Seq<char>>) {
    (p.base@, p.spec_parts())
}

/// The locations of a list.
pub open spec fn locations(v: Seq<PathSpec>) -> Seq<(Seq<char>, Seq<Seq<char>>)> {
    v.map_values(|p: PathSpec| location(p))
}

/// The directories of installed aria2 packages: `aria2` in the resource
/// directory, then the package folders whose name marks aria2, in the order
/// given.
pub open spec fn package_dirs(resource_dir: Seq<char>, named_dirs: Seq<Seq<char>>) -> Seq<(Seq<char>, Seq<Seq<char>>)> {
    seq![(resource_dir, seq!["aria2"@])] + named_dirs.map_values(|d: Seq<char>| (d, Seq::<Seq<char>>::empty()))
}

fn bare_location(dir: &str) -> (r: PathSpec)
    ensures
        location(r) == (dir@, Seq::<Seq<char>>::empty()),
{
    let r = PathSpec { base: owned(dir), parts: Vec::new() };
    assert(r.spec_parts() =~= Seq::<Seq<char>>::empty());
    r
}

/// Where an installed aria2 package may be (`find_aria2` of the package
/// installer): `aria2` in the resource directory, then the folders whose
/// name marks aria2.
pub fn aria2_package_dirs(resource_dir: &str, named_dirs: &Vec<String>) -> (r: Vec<PathSpec>)
    ensures
        locations(r@) == package_dirs(resource_dir@, texts(named_dirs@)),
{
    let mut r: Vec<PathSpec> = Vec::new();
    r.push(path1(resource_dir, "aria2"));
    let n = named_dirs.len();
    for i in 0..n
        invariant
            n == named_dirs@.len(),
            locations(r@) == package_dirs(resource_dir@, texts(named_dirs@.take(i as int))),
    {
        let ghost prev = texts(named_dirs@.take(i as int));
        let ghost d = named_dirs@[i as int]@;
        r.push(bare_location(named_dirs[i].as_str()));
        assert(texts(named_dirs@.take(i + 1)) =~= prev.push(d));
        assert(package_dirs(resource_dir@, prev.push(d)) =~= package_dirs(resource_dir@, prev).push(
            (d, Seq::<Seq<char>>::empty()),
        ));
        assert(locations(r@) =~= package_dirs(resource_dir@, texts(named_dirs@.take(i + 1))));
    }
    assert(named_dirs@.take(n as int) == named_dirs@);
    r
}

/// The further places the downloader looks for aria2: next to the
/// executable (`aria2`, `testdata/aria2`) when its directory is known, then
/// `testdata/aria2` and `aria2` below the current directory.
pub open spec fn fallback_dirs(exe_dir: Option<Seq<char>>) -> Seq<(Seq<char>, Seq<Seq<char>>)> {
    let beside: Seq<(Seq<char>, Seq<Seq<char>>)> = match exe_dir {
        Some(e) => seq![(e, seq!["aria2"@]), (e, seq!["testdata"@, "aria2"@])],
        None => Seq::empty(),
    };
    beside + seq![("testdata"@, seq!["aria2"@]), ("aria2"@, Seq::<Seq<char>>::empty())]
}

/// Where the downloader looks for aria2, in order (`find_aria2`): the
/// package directories, then the fall-back places.
pub fn aria2_search_dirs(resource_dir: &str, named_dirs: &Vec<String>, exe_dir: Option<String>) -> (r: Vec<PathSpec>)
    ensures
        locations(r@) == package_dirs(resource_dir@, texts(named_dirs@)) + fallback_dirs(
            match exe_dir {
                Some(e) => Some(e@),
                None => None,
            },
        ),
{
    let mut r = aria2_package_dirs(resource_dir, named_dirs);
    let ghost first = locations(r@);
    match &exe_dir {
        Some(e) => {
            r.push(path1(e.as_str(), "aria2"));
            r.push(path2(e.as_str(), "testdata", "aria2"));
        },
        None => {},
    }
    r.push(path1("testdata", "aria2"));
    r.push(bare_location("aria2"));
    assert(locations(r@) =~= first + fallback_dirs(
        match exe_dir {
            Some(e) => Some(e@),
            None => None,
        },
    ));
    r
}

/// Whether a directory name marks an aria2 package: its lowercase form
/// contains `aria2`.
pub fn is_aria2_dir_name(name: &str) -> (r: bool)
    ensures
        r == has_substring(lowercase(name@), "aria2"@),
{
    let l = to_lowercase(name);
    let lc = chars_of(l.as_str());
    let needle = chars_of("aria2");
    contains(lc.as_slice(), needle.as_slice())
}

// ---------------------------------------------------------------------------
// Installer files
// ---------------------------------------------------------------------------

/// The file name a 4.x/5.x installer is saved under, so that the two never
/// overwrite each other.
pub fn installer_file_name(version: &str) -> (r: String)
    ensures
        version@ == "MuMu12-V5"@ ==> r@ == "MuMu_Setup_V5.exe"@,
        version@ != "MuMu12-V5"@ ==> r@ == "MuMu_Setup_V4.exe"@,
{
    if same_text(version, "MuMu12-V5") {
        owned("MuMu_Setup_V5.exe")
    } else {
        owned("MuMu_Setup_V4.exe")
    }
}

/// A download needs a link.
pub fn require_download_url(url: &str) -> (r: Result<(), String>)
    ensures
        url@.len() == 0 ==> r is Err && r->Err_0@ == "安装包下载链接不能为空"@,
        url@.len() > 0 ==> r is Ok,
{
    if url.is_empty() {
        Err(owned("安装包下载链接不能为空"))
    } else {
        Ok(())
    }
}

/// The text of `s` before the first `c` (all of it when there is none).
pub open spec fn before_first(s: Seq<char>, c: char) -> Seq<char>
    decreases s.len(),
{
    if s.len() == 0 {
        s
    } else if s[0] == c {
        Seq::empty()
    } else {
        seq![s[0]] + before_first(s.drop_first(), c)
    }
}

/// The last path segment of a URL without its query: the text after the
/// last `/` of what comes before the first `?`.
pub open spec fn url_last_segment(url: Seq<char>) -> Seq<char> {
    after_last_slash(before_first(url, '?'))
}

proof fn lemma_before_first_take(s: Seq<char>, c: char, i: int)
    requires
        0 <= i <= s.len(),
        forall|k: int| 0 <= k < i ==> s[k] != c,
        i == s.len() || s[i] == c,
    ensures
        before_first(s, c) == s.take(i),
    decreases s.len(),
{
    if s.len() > 0 && s[0] != c {
        assert(i > 0);
        lemma_before_first_take(s.drop_first(), c, i - 1);
        assert(seq![s[0]] + s.drop_first().take(i - 1) =~= s.take(i));
    } else if s.len() > 0 {
        assert(i == 0);
        assert(s.take(0) =~= Seq::<char>::empty());
    } else {
        assert(s.take(i) =~= s);
    }
}

/// The last path segment of a URL, without its query.
pub fn last_url_segment(url: &str) -> (r: String)
    ensures
        r@ == url_last_segment(url@),
{
    let v = chars_of(url);
    let n = v.len();
    let mut i: usize = 0;
    while i < n && v[i] != '?'
        invariant
            n == v@.len(),
            i <= n,
            forall|k: int| 0 <= k < i ==> v@[k] != '?',
        decreases n - i,
    {
        i = i + 1;
    }
    proof {
        lemma_before_first_take(v@, '?', i as int);
    }
    let mut head: Vec<char> = Vec::new();
    for k in 0..i
        invariant
            i <= n,
            n == v@.len(),
            head@ == v@.take(k as int),
    {
        head.push(v[k]);
        assert(v@.take(k + 1) == v@.take(k as int).push(v@[k as int]));
    }
    let tail = after_last_slash_chars(head.as_slice());
    string_of(tail.as_slice())
}

/// The file name a 6.x component is saved under: the last segment of its
/// link.
pub fn component_file_name(component: &V6Component) -> (r: String)
    ensures
        r@ == url_last_segment(component.link@),
{
    last_url_segment(component.link.as_str())
}

/// Whether an existing file is removed before downloading: only when not
/// resuming.
pub fn remove_before_download(resume: bool, exists: bool) -> (r: bool)
    ensures
        r == (!resume && exists),
{
    !resume && exists
}

/// Whether a 6.x component is skipped when resuming: its file is already
/// at least as large as the component's announced size.
pub fn component_already_downloaded(resume: bool, exists: bool, existing_size: u64, size: i64) -> (r: bool)
    ensures
        r == (resume && exists && existing_size > 0 && size > 0 && existing_size as int >= size as int),
{
    resume && exists && existing_size > 0 && size > 0 && existing_size >= size as u64
}

/// How `serde_json` writes one character inside a string: `"` and the
/// backslash escaped with a backslash, the controls below U+0020 as `\b`,
/// `\t`, `\n`, `\f`, `\r` or `\u00` and two lowercase hex digits, every
/// other character as it is.
pub open spec fn json_char(c: char) -> Seq<char> {
    let u = c as u32;
    if c == '"' {
        seq!['\\', '"']
    } else if c == '\\' {
        seq!['\\', '\\']
    } else if u == 8 {
        seq!['\\', 'b']
    } else if u == 9 {
        seq!['\\', 't']
    } else if u == 10 {
        seq!['\\', 'n']
    } else if u == 12 {
        seq!['\\', 'f']
    } else if u == 13 {
        seq!['\\', 'r']
    } else if u < 32 {
        seq!['\\', 'u', '0', '0', crate::vdi::hex_digit((u / 16) as nat), crate::vdi::hex_digit((u % 16) as nat)]
    } else {
        seq![c]
    }
}

/// The escaped characters of a string.
pub open spec fn json_escaped(s: Seq<char>) -> Seq<char>
    decreases s.len(),
{
    if s.len() == 0 {
        Seq::empty()
    } else {
        json_escaped(s.drop_last()) + json_char(s.last())
    }
}

/// The JSON items of a list of strings, separated by `,`.
pub open spec fn json_items(items: Seq<Seq<char>>) -> Seq<char>
    decreases items.len(),
{
    if items.len() == 0 {
        Seq::empty()
    } else if items.len() == 1 {
        seq!['"'] + json_escaped(items[0]) + seq!['"']
    } else {
        json_items(items.drop_last()) + seq![','] + seq!['"'] + json_escaped(items.last()) + seq!['"']
    }
}

/// The compact JSON text of a list of strings (what `serde_json::to_string`
/// writes for a `Vec<String>`).
pub open spec fn json_of_strings(items: Seq<Seq<char>>) -> Seq<char> {
    seq!['['] + json_items(items) + seq![']']
}

/// What `serde_json::from_str::<Vec<String>>` gives for a text: the strings
/// or the error's text.
pub uninterp spec fn strings_from_json(text: Seq<char>) -> Result<Seq<Seq<char>>, Seq<char>>;

/// Trusted: calls `serde_json::to_string` on a list of strings, which
/// writes `json_of_strings`; serialising strings cannot fail, so the empty
/// default is never taken.
#[verifier::external_body]
fn strings_to_json(items: &Vec<String>) -> (r: String)
    ensures
        r@ == json_of_strings(texts(items@)),
{
    serde_json::to_string(items).unwrap_or_default()
}

/// Trusted: calls `serde_json::from_str::<Vec<String>>`, turning an error
/// into its text.  The result is named `strings_from_json`; reading back
/// what `serde_json::to_string` wrote gives the same strings.
#[verifier::external_body]
fn strings_from_json_text(text: &str) -> (r: Result<Vec<String>, String>)
    ensures
        match r {
            Ok(v) => strings_from_json(text@) == Ok::<Seq<Seq<char>>, Seq<char>>(texts(v@)),
            Err(e) => strings_from_json(text@) == Err::<Seq<Seq<char>>, Seq<char>>(e@),
        },
        forall|items: Seq<Seq<char>>|
            #[trigger] json_of_strings(items) == text@ ==> r is Ok && texts(r->Ok_0@) == items,
{
    serde_json::from_str::<Vec<String>>(text).map_err(|e| e.to_string())
}

/// What a 6.x download reports: the JSON list of the downloaded files.
pub fn downloaded_files_report(files: &Vec<String>) -> (r: String)
    ensures
        r@ == json_of_strings(texts(files@)),
{
    strings_to_json(files)
}

/// The downloaded files named by a 6.x download report.
pub fn parse_downloaded_files(report: &str) -> (r: Result<Vec<String>, String>)
    ensures
        match strings_from_json(report@) {
            Ok(v) => r is Ok && texts(r->Ok_0@) == v,
            Err(e) => r is Err && r->Err_0@ == "解析文件列表失败: "@ + e,
        },
{
    match strings_from_json_text(report) {
        Ok(v) => Ok(v),
        Err(e) => Err(concat("解析文件列表失败: ", e.as_str())),
    }
}

/// Reading back the report of a 6.x download gives the files it named.
pub proof fn law_report_round_trip(files: Seq<Seq<char>>, report: Seq<char>, parsed: Result<Vec<String>, String>)
    requires
        report == json_of_strings(files),
        forall|items: Seq<Seq<char>>|
            #[trigger] json_of_strings(items) == report ==> parsed is Ok && texts(parsed->Ok_0@) == items,
    ensures
        parsed is Ok && texts(parsed->Ok_0@) == files,
{
}

// ---------------------------------------------------------------------------
// Installing 6.x
// ---------------------------------------------------------------------------

/// Whether a downloaded file belongs to a component: its lowercase path
/// contains the lowercase component name (or that name after a `-`).
pub open spec fn file_matches(file: Seq<char>, name: Seq<char>) -> bool {
    has_substring(lowercase(file), lowercase(name)) || has_substring(
        lowercase(file),
        seq!['-'] + lowercase(name),
    )
}

/// The first file at or after `j` that belongs to the component.
pub open spec fn first_match_from(files: Seq<Seq<char>>, name: Seq<char>, j: int) -> Option<int>
    decreases files.len() - j,
{
    if j < 0 || j >= files.len() {
        None
    } else if file_matches(files[j], name) {
        Some(j)
    } else {
        first_match_from(files, name, j + 1)
    }
}

/// For the first `k` components, in order, the component and its first
/// matching file; components without a file are left out.
pub open spec fn component_pairs(names: Seq<Seq<char>>, files: Seq<Seq<char>>, k: int) -> Seq<(int, int)>
    decreases k,
{
    if k <= 0 {
        Seq::empty()
    } else {
        let prev = component_pairs(names, files, k - 1);
        match first_match_from(files, names[k - 1], 0) {
            Some(j) => prev.push((k - 1, j)),
            None => prev,
        }
    }
}

/// The index pairs as integers.
pub open spec fn pair_view(v: Seq<(usize, usize)>) -> Seq<(int, int)> {
    v.map_values(|p: (usize, usize)| (p.0 as int, p.1 as int))
}

/// The names of the components.
pub open spec fn component_names(c: Seq<V6Component>) -> Seq<Seq<char>> {
    c.map_values(|x: V6Component| x.name@)
}

fn file_matches_exec(file: &str, lower_name: &Vec<char>, dashed_name: &Vec<char>, name: Ghost<Seq<char>>) -> (r: bool)
    requires
        lower_name@ == lowercase(name@),
        dashed_name@ == seq!['-'] + lowercase(name@),
    ensures
        r == file_matches(file@, name@),
{
    let lf = to_lowercase(file);
    let lfc = chars_of(lf.as_str());
    contains(lfc.as_slice(), lower_name.as_slice()) || contains(lfc.as_slice(), dashed_name.as_slice())
}

/// Pairs each component with the first downloaded file that belongs to it
/// (`install_v6_setup`); components without a file are skipped.
pub fn match_component_files(components: &Vec<V6Component>, files: &Vec<String>) -> (r: Vec<(usize, usize)>)
    ensures
        pair_view(r@) == component_pairs(component_names(components@), texts(files@), components@.len() as int),
{
    let n = components.len();
    let m = files.len();
    let ghost names = component_names(components@);
    let ghost fs = texts(files@);
    let mut r: Vec<(usize, usize)> = Vec::new();
    for i in 0..n
        invariant
            n == components@.len(),
            m == files@.len(),
            names == component_names(components@),
            fs == texts(files@),
            pair_view(r@) == component_pairs(names, fs, i as int),
    {
        let ln = to_lowercase(components[i].name.as_str());
        let lower = chars_of(ln.as_str());
        let mut dashed: Vec<char> = Vec::new();
        dashed.push('-');
        let k = lower.len();
        for t in 0..k
            invariant
                k == lower@.len(),
                dashed@ == seq!['-'] + lower@.take(t as int),
        {
            dashed.push(lower[t]);
            assert(lower@.take(t + 1) == lower@.take(t as int).push(lower@[t as int]));
        }
        assert(lower@.take(k as int) == lower@);
        let ghost name = names[i as int];
        assert(name == components@[i as int].name@);
        let mut j: usize = 0;
        let mut found: Option<usize> = None;
        while j < m
            invariant_except_break
                found is None,
            invariant
                m == files@.len(),
                j <= m,
                fs == texts(files@),
                lower@ == lowercase(name),
                dashed@ == seq!['-'] + lowercase(name),
                first_match_from(fs, name, j as int) == first_match_from(fs, name, 0),
            ensures
                found is Some ==> first_match_from(fs, name, 0) == Some(found->0 as int),
                found is None ==> first_match_from(fs, name, 0) is None,
            decreases m - j,
        {
            assert(fs[j as int] == files@[j as int]@);
            if file_matches_exec(files[j].as_str(), &lower, &dashed, Ghost(name)) {
                found = Some(j);
                break;
            }
            j = j + 1;
        }
        match found {
            Some(j) => {
                r.push((i, j));
                assert(pair_view(r@) =~= component_pairs(names, fs, i + 1));
            },
            None => {
                assert(pair_view(r@) =~= component_pairs(names, fs, i + 1));
            },
        }
    }
    r
}

/// The two phases of installing a 6.x component.
pub enum V6Action {
    Prepare,
    Commit,
}

/// The `/action=` value of a phase.
pub open spec fn action_name(a: V6Action) -> Seq<char> {
    match a {
        V6Action::Prepare => "install_prepare"@,
        V6Action::Commit => "commit"@,
    }
}

/// Step `k` of installing `n` components: every component is prepared in
/// order, then committed in reverse order.
pub open spec fn v6_step(n: int, k: int) -> (int, V6Action) {
    if k < n {
        (k, V6Action::Prepare)
    } else {
        (2 * n - 1 - k, V6Action::Commit)
    }
}

/// The steps of installing `n` matched components.
pub fn v6_install_steps(n: usize) -> (r: Vec<(usize, V6Action)>)
    requires
        n <= usize::MAX / 2,
    ensures
        r@.len() == 2 * n,
        forall|k: int| 0 <= k < 2 * n ==> (#[trigger] r@[k]).0 as int == v6_step(n as int, k).0 && r@[k].1
            == v6_step(n as int, k).1,
        forall|t: int| 0 <= t < n ==> (#[trigger] r@[t]).0 == t && r@[t].1 == V6Action::Prepare,
        forall|t: int| 0 <= t < n ==> (#[trigger] r@[n + t]).0 == n - 1 - t && r@[n + t].1 == V6Action::Commit,
{
    let mut r: Vec<(usize, V6Action)> = Vec::new();
    for k in 0..n
        invariant
            r@.len() == k,
            forall|q: int| 0 <= q < k ==> (#[trigger] r@[q]).0 as int == v6_step(n as int, q).0 && r@[q].1
                == v6_step(n as int, q).1,
    {
        r.push((k, V6Action::Prepare));
    }
    for t in 0..n
        invariant
            r@.len() == n + t,
            n <= usize::MAX / 2,
            forall|q: int| 0 <= q < n + t ==> (#[trigger] r@[q]).0 as int == v6_step(n as int, q).0 && r@[q].1
                == v6_step(n as int, q).1,
    {
        r.push((n - 1 - t, V6Action::Commit));
    }
    proof {
        assert forall|t: int| 0 <= t < n implies (#[trigger] r@[n + t]).0 == n - 1 - t && r@[n + t].1
            == V6Action::Commit by {
            law_commits_reverse_prepares(n as int, t);
        }
        assert forall|t: int| 0 <= t < n implies (#[trigger] r@[t]).0 == t && r@[t].1 == V6Action::Prepare by {
            law_commits_reverse_prepares(n as int, t);
        }
    }
    r
}

/// Installing `n` components prepares them in order and then commits them in
/// exactly the reverse order: step `t` prepares component `t`, step `n + t`
/// commits component `n - 1 - t`, so each component's commit mirrors its
/// prepare around the middle of the run.
pub proof fn law_commits_reverse_prepares(n: int, t: int)
    requires
        0 <= t < n,
    ensures
        v6_step(n, t) == (t, V6Action::Prepare),
        v6_step(n, n + t) == (n - 1 - t, V6Action::Commit),
        v6_step(n, 2 * n - 1 - t) == (t, V6Action::Commit),
{
}

/// The name of a phase as the installer takes it.
pub fn v6_action_name(a: &V6Action) -> (r: String)
    ensures
        r@ == action_name(*a),
{
    match a {
        V6Action::Prepare => owned("install_prepare"),
        V6Action::Commit => owned("commit"),
    }
}

/// The arguments of a 6.x component installer for one phase (the install
/// directory follows as a raw argument).
pub open spec fn v6_arg_texts(action: V6Action, txn_id: Seq<char>, product_version: Seq<char>) -> Seq<Seq<char>> {
    seq![
        "/from_orchestrator=1"@,
        "/action="@ + action_name(action),
        "/txn_id="@ + txn_id,
        "/silent=1"@,
        "/product_version="@ + product_version,
        "/auto_start=false"@,
        "/fchannel=nochannel-mumu12"@,
        "/auto_run=false"@,
    ]
}

/// The arguments of a 6.x component installer for one phase.
pub fn v6_installer_args(action: &V6Action, txn_id: &str, product_version: &str) -> (r: Vec<String>)
    ensures
        arg_texts(r@) == v6_arg_texts(*action, txn_id@, product_version@),
{
    let name = v6_action_name(action);
    let mut r: Vec<String> = Vec::new();
    r.push(owned("/from_orchestrator=1"));
    r.push(concat("/action=", name.as_str()));
    r.push(concat("/txn_id=", txn_id));
    r.push(owned("/silent=1"));
    r.push(concat("/product_version=", product_version));
    r.push(owned("/auto_start=false"));
    r.push(owned("/fchannel=nochannel-mumu12"));
    r.push(owned("/auto_run=false"));
    assert(arg_texts(r@) =~= v6_arg_texts(*action, txn_id@, product_version@));
    r
}

/// The raw argument that names the install directory; it must come last and
/// unquoted for the NSIS installers.
pub fn install_dir_arg(install_dir: &str) -> (r: String)
    ensures
        r@ == "/D="@ + install_dir@,
{
    concat("/D=", install_dir)
}

/// The progress text of one 6.x installation step.
pub fn v6_step_message(step: usize, total: usize, name: &str, action: &V6Action) -> (r: String)
    ensures
        r@ == "安装组件 "@ + decimal(step as nat) + "/"@ + decimal(total as nat) + ": "@ + name@ + " ("@
            + action_name(*action) + ")"@,
{
    let s = unsigned_text(step as u64);
    let t = unsigned_text(total as u64);
    let a = v6_action_name(action);
    let mut r = owned("安装组件 ");
    r.append(s.as_str());
    r.append("/");
    r.append(t.as_str());
    r.append(": ");
    r.append(name);
    r.append(" (");
    r.append(a.as_str());
    r.append(")");
    r
}

/// The exit code reported for an installer: its code, or -1 when it was
/// ended by a signal.
pub open spec fn exit_code_of(code: Option<i32>) -> int {
    match code {
        Some(c) => c as int,
        None => -1,
    }
}

fn exit_code_text(code: Option<i32>) -> (r: String)
    ensures
        r@ == signed_decimal(exit_code_of(code)),
{
    match code {
        Some(c) => signed_text(c),
        None => signed_text(-1),
    }
}

/// The failure text of a 6.x installation step, as a spec.
pub open spec fn v6_failure_text(name: Seq<char>, action: V6Action, code: Option<i32>, stdout: Seq<char>, stderr: Seq<char>) -> Seq<char> {
    "组件 "@ + name + (match action {
        V6Action::Prepare => " 安装失败 (exit: "@,
        V6Action::Commit => " commit 失败 (exit: "@,
    }) + signed_decimal(exit_code_of(code)) + ")\n"@ + stdout + "\n"@ + stderr
}

/// The outcome of one 6.x installation step: the installation goes on
/// after a step that succeeded and stops with the step's failure text
/// otherwise.
pub fn v6_step_outcome(
    name: &str,
    action: &V6Action,
    success: bool,
    code: Option<i32>,
    stdout: &str,
    stderr: &str,
) -> (r: Result<(), String>)
    ensures
        success ==> r is Ok,
        !success ==> r is Err && r->Err_0@ == v6_failure_text(name@, *action, code, stdout@, stderr@),
{
    if success {
        Ok(())
    } else {
        Err(v6_step_failure(name, action, code, stdout, stderr))
    }
}

/// The installers removed once an installation succeeded: all of them when
/// the setting asks for it, else none.
pub fn installers_to_delete(auto_delete: bool, installed: bool, files: &Vec<String>) -> (r: Vec<String>)
    ensures
        auto_delete && installed ==> texts(r@) == texts(files@),
        !(auto_delete && installed) ==> r@.len() == 0,
{
    if auto_delete && installed {
        files.clone()
    } else {
        Vec::new()
    }
}

/// The failure text of a 6.x installation step.
pub fn v6_step_failure(name: &str, action: &V6Action, code: Option<i32>, stdout: &str, stderr: &str) -> (r: String)
    ensures
        r@ == "组件 "@ + name@ + (match action {
            V6Action::Prepare => " 安装失败 (exit: "@,
            V6Action::Commit => " commit 失败 (exit: "@,
        }) + signed_decimal(exit_code_of(code)) + ")\n"@ + stdout@ + "\n"@ + stderr@,
{
    let c = exit_code_text(code);
    let mut r = owned("组件 ");
    r.append(name);
    match action {
        V6Action::Prepare => r.append(" 安装失败 (exit: "),
        V6Action::Commit => r.append(" commit 失败 (exit: "),
    }
    r.append(c.as_str());
    r.append(")\n");
    r.append(stdout);
    r.append("\n");
    r.append(stderr);
    r
}

/// The refusal when no downloaded file belongs to any component.
pub fn no_component_files() -> (r: String)
    ensures
        r@ == "没有找到任何可用的组件安装文件"@,
{
    owned("没有找到任何可用的组件安装文件")
}

/// The report of a finished 6.x installation.
pub fn v6_install_success(install_dir: &str) -> (r: String)
    ensures
        r@ == "V6 安装成功\n安装目录: "@ + install_dir@,
{
    concat("V6 安装成功\n安装目录: ", install_dir)
}

// ---------------------------------------------------------------------------
// Installing 4.x/5.x
// ---------------------------------------------------------------------------

/// The refusal when the installer file is missing.
pub fn installer_missing(installer_path: &str) -> (r: String)
    ensures
        r@ == "安装包不存在: "@ + installer_path@,
{
    concat("安装包不存在: ", installer_path)
}

/// The arguments of a silent 4.x/5.x installation (the install directory
/// follows as a raw argument).
pub fn v4_installer_args() -> (r: Vec<String>)
    ensures
        arg_texts(r@) == seq!["/S"@],
{
    let mut r: Vec<String> = Vec::new();
    r.push(owned("/S"));
    assert(arg_texts(r@) =~= seq!["/S"@]);
    r
}

/// The outcome of a silent 4.x/5.x installation (`install_v4_setup`).
pub fn v4_install_outcome(success: bool, code: Option<i32>, install_dir: &str, stdout: &str, stderr: &str) -> (r: Result<String, String>)
    ensures
        success ==> r is Ok && r->Ok_0@ == "安装成功\n安装目录: "@ + install_dir@ + "\n"@ + stdout@,
        !success ==> r is Err && r->Err_0@ == "安装失败 (exit: "@ + signed_decimal(exit_code_of(code))
            + ")\n"@ + stdout@ + "\n"@ + stderr@,
{
    if success {
        let mut r = owned("安装成功\n安装目录: ");
        r.append(install_dir);
        r.append("\n");
        r.append(stdout);
        Ok(r)
    } else {
        let c = exit_code_text(code);
        let mut r = owned("安装失败 (exit: ");
        r.append(c.as_str());
        r.append(")\n");
        r.append(stdout);
        r.append("\n");
        r.append(stderr);
        Err(r)
    }
}

/// The progress text shown when a 4.x/5.x installation fails.
pub fn v4_install_failure_progress(code: Option<i32>) -> (r: String)
    ensures
        r@ == "安装失败 (exit: "@ + signed_decimal(exit_code_of(code)) + ")"@,
{
    let c = exit_code_text(code);
    concat3("安装失败 (exit: ", c.as_str(), ")")
}

/// The notice that an installation task started (`start_install`).
pub fn start_install(version: &str, method: &str, path: &str, install_dir: &str) -> (r: String)
    ensures
        r@ == version@ + " "@ + (if method@ == "local"@ {
            "本地安装"@
        } else {
            "在线安装"@
        }) + " 安装任务已开始\n安装包路径: "@ + path@ + "\n安装目录: "@ + install_dir@,
{
    let mut r = owned(version);
    r.append(" ");
    if same_text(method, "local") {
        r.append("本地安装");
    } else {
        r.append("在线安装");
    }
    r.append(" 安装任务已开始\n安装包路径: ");
    r.append(path);
    r.append("\n安装目录: ");
    r.append(install_dir);
    r
}

} // verus!
