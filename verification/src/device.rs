//! The device identifier: `fd://<n>` for a descriptor that is already open,
//! `dev://<name>` for a device to create.

use vstd::prelude::*;
use vstd::string::*;
use crate::error::{ConfigError, ConfigFault};

verus! {

/// `url::ParseError`, the reason why a text is no URL. Nothing is read
/// from it here; it is handed on inside `ConfigError::DeviceUrl`.
#[verifier::external_type_specification]
#[verifier::external_body]
pub struct ExUrlParseError(url::ParseError);

/// The two parts of a URL that a device identifier is read from.
#[derive(Clone, Debug, PartialEq, Eq)]
pub struct DeviceUrl {
    pub scheme: String,
    pub host: Option<String>,
}

/// What a `DeviceUrl` stands for.
pub struct DeviceUrlView {
    pub scheme: Seq<char>,
    pub host: Option<Seq<char>>,
}

impl View for DeviceUrl {
    type V = DeviceUrlView;

    open spec fn view(&self) -> DeviceUrlView {
        DeviceUrlView {
            scheme: self.scheme@,
            host: match self.host {
                Some(h) => Some(h@),
                None => None,
            },
        }
    }
}

/// The scheme and the host of `input` read as an absolute URL by the `url`
/// crate, `None` where it is no such URL.
pub uninterp spec fn url_parse(input: Seq<char>) -> Option<DeviceUrlView>;

/// `url::Url::parse`, with the scheme (`Url::scheme`) and the text of the
/// host (`Url::host`, written out by its `Display`) taken from the URL it
/// returns. The contract claims only that these are a function of the
/// input; what they are is the `url` crate's business.
#[verifier::external_body]
fn parse_url(input: &str) -> (r: Result<DeviceUrl, url::ParseError>)
    ensures
        match r {
            Ok(u) => url_parse(input@) == Some(u@),
            Err(_) => url_parse(input@) is None,
        },
{
    match url::Url::parse(input) {
        Ok(u) => Ok(DeviceUrl { scheme: u.scheme().to_owned(), host: u.host().map(|h| h.to_string()) }),
        Err(e) => Err(e),
    }
}

/// How the interface is to be opened.
#[derive(Clone, Debug, PartialEq, Eq)]
pub enum TunDevice {
    /// Use the descriptor, which is open already.
    Fd(i32),
    /// Create the device of this name.
    Name(String),
}

/// What a `TunDevice` stands for.
pub enum TunDeviceView {
    Fd(i32),
    Name(Seq<char>),
}

impl View for TunDevice {
    type V = TunDeviceView;

    open spec fn view(&self) -> TunDeviceView {
        match *self {
            TunDevice::Fd(fd) => TunDeviceView::Fd(fd),
            TunDevice::Name(name) => TunDeviceView::Name(name@),
        }
    }
}

pub open spec fn is_digit(c: char) -> bool {
    '0' <= c <= '9'
}

pub open spec fn all_digits(s: Seq<char>) -> bool {
    forall|i: int| 0 <= i < s.len() ==> is_digit(#[trigger] s[i])
}

/// The number that the decimal digits `s` spell.
pub open spec fn decimal_value(s: Seq<char>) -> int
    decreases s.len(),
{
    if s.len() == 0 {
        0
    } else {
        decimal_value(s.drop_last()) * 10 + (s.last() as int - '0' as int)
    }
}

/// `s` without a leading `+`.
pub open spec fn unsigned_digits(s: Seq<char>) -> Seq<char> {
    if s.len() > 0 && s[0] == '+' {
        s.drop_first()
    } else {
        s
    }
}

/// The descriptor that `host` names: decimal digits, one at least, after an
/// optional `+`, spelling a number that a descriptor can hold.
pub open spec fn fd_of(host: Seq<char>) -> Option<i32> {
    let digits = unsigned_digits(host);
    if digits.len() > 0 && all_digits(digits) && decimal_value(digits) <= i32::MAX {
        Some(decimal_value(digits) as i32)
    } else {
        None
    }
}

/// The decimal digits of `n`, without leading zeros.
pub open spec fn decimal_digits(n: nat) -> Seq<char>
    decreases n,
{
    if n < 10 {
        seq![(n + 48) as u8 as char]
    } else {
        decimal_digits(n / 10).push((n % 10 + 48) as u8 as char)
    }
}

/// Every descriptor has a spelling that is read as that descriptor: its
/// decimal digits.
pub proof fn lemma_fd_of_decimal_digits(n: nat)
    requires
        n <= i32::MAX,
    ensures
        fd_of(decimal_digits(n)) == Some(n as i32),
{
    lemma_decimal_digits(n);
}

proof fn lemma_decimal_digits(n: nat)
    ensures
        decimal_digits(n).len() > 0,
        all_digits(decimal_digits(n)),
        decimal_digits(n)[0] != '+',
        decimal_value(decimal_digits(n)) == n,
    decreases n,
{
    let digits = decimal_digits(n);
    let last = (n % 10 + 48) as u8 as char;
    assert(last as int == n % 10 + 48);
    assert('0' as int == 48 && '9' as int == 57 && '+' as int == 43);
    assert(digits.last() == last);
    assert(decimal_value(digits) == decimal_value(digits.drop_last()) * 10 + (digits.last() as int
        - '0' as int));
    if n < 10 {
        assert(digits.drop_last() =~= Seq::<char>::empty());
    } else {
        lemma_decimal_digits(n / 10);
        assert(digits.drop_last() =~= decimal_digits(n / 10));
    }
}

proof fn lemma_decimal_value_step(s: Seq<char>, i: int)
    requires
        0 <= i < s.len(),
    ensures
        decimal_value(s.take(i + 1)) == decimal_value(s.take(i)) * 10 + (s[i] as int - '0' as int),
{
    assert(s.take(i + 1).drop_last() =~= s.take(i));
}

proof fn lemma_decimal_value_grows(s: Seq<char>, i: int)
    requires
        0 <= i <= s.len(),
        all_digits(s),
    ensures
        0 <= decimal_value(s.take(i)) <= decimal_value(s),
    decreases s.len() - i,
{
    if i == s.len() {
        assert(s.take(i) =~= s);
        lemma_decimal_value_nonnegative(s);
    } else {
        lemma_decimal_value_step(s, i);
        lemma_decimal_value_grows(s, i + 1);
        lemma_decimal_value_nonnegative(s.take(i));
    }
}

proof fn lemma_decimal_value_nonnegative(s: Seq<char>)
    requires
        all_digits(s),
    ensures
        0 <= decimal_value(s),
    decreases s.len(),
{
    if s.len() > 0 {
        lemma_decimal_value_nonnegative(s.drop_last());
    }
}

/// Reads a descriptor number from the host part of an `fd` identifier.
pub fn parse_fd(host: &str) -> (r: Option<i32>)
    ensures
        r == fd_of(host@),
        r matches Some(fd) ==> fd >= 0,
{
    let n = host.unicode_len();
    let start: usize = if n > 0 && host.get_char(0) == '+' { 1 } else { 0 };
    if start == n {
        return None;
    }
    let ghost digits = unsigned_digits(host@);
    assert(digits =~= host@.subrange(start as int, n as int));
    let mut value: u64 = 0;
    let mut i: usize = start;
    while i < n
        invariant
            start <= i <= n,
            n == host@.len(),
            digits == unsigned_digits(host@),
            digits == host@.subrange(start as int, n as int),
            all_digits(digits.take(i - start)),
            value == decimal_value(digits.take(i - start)),
            value <= i32::MAX,
        decreases n - i,
    {
        let c = host.get_char(i);
        assert(digits[i - start] == c);
        if !('0' <= c && c <= '9') {
            assert(!is_digit(digits[i - start]));
            return None;
        }
        let digit: u64 = (c as u32 - '0' as u32) as u64;
        let next: u64 = value * 10 + digit;
        proof {
            lemma_decimal_value_step(digits, i - start);
            assert(all_digits(digits.take(i - start + 1))) by {
                assert forall|j: int| 0 <= j < i - start + 1 implies is_digit(
                    #[trigger] digits.take(i - start + 1)[j],
                ) by {
                    if j < i - start {
                        assert(digits.take(i - start)[j] == digits[j]);
                    }
                }
            }
        }
        if next > i32::MAX as u64 {
            proof {
                if all_digits(digits) {
                    lemma_decimal_value_grows(digits, i - start + 1);
                }
            }
            return None;
        }
        value = next;
        i = i + 1;
    }
    assert(digits.take(i - start) =~= digits);
    Some(value as i32)
}

/// The scheme of an identifier that names an open descriptor.
pub open spec fn scheme_fd() -> Seq<char> {
    seq!['f', 'd']
}

/// The scheme of an identifier that names a device to create.
pub open spec fn scheme_dev() -> Seq<char> {
    seq!['d', 'e', 'v']
}

/// The device that the parts `url` of the identifier `device_id` name:
/// under `fd` the descriptor that the host part spells, under `dev` the
/// device named by the host part; the fault otherwise. The scheme is
/// looked at first, so an unknown scheme is the fault whether or not
/// there is a host part.
pub open spec fn device_of(device_id: Seq<char>, url: DeviceUrlView) -> Result<
    TunDeviceView,
    ConfigFault,
> {
    if url.scheme == scheme_fd() {
        match url.host {
            None => Err(ConfigFault::MissingHost(device_id)),
            Some(host) => match fd_of(host) {
                Some(fd) => Ok(TunDeviceView::Fd(fd)),
                None => Err(ConfigFault::InvalidFd(device_id)),
            },
        }
    } else if url.scheme == scheme_dev() {
        match url.host {
            None => Err(ConfigFault::MissingHost(device_id)),
            Some(host) => Ok(TunDeviceView::Name(host)),
        }
    } else {
        Err(ConfigFault::UnknownScheme(device_id))
    }
}

/// The device that the identifier `device_id` names, or the fault in it.
pub open spec fn device_of_id(device_id: Seq<char>) -> Result<TunDeviceView, ConfigFault> {
    match url_parse(device_id) {
        None => Err(ConfigFault::DeviceUrl),
        Some(url) => device_of(device_id, url),
    }
}

/// A device or an error, as what they stand for.
pub open spec fn device_result_view(r: Result<TunDevice, ConfigError>) -> Result<
    TunDeviceView,
    ConfigFault,
> {
    match r {
        Ok(device) => Ok(device@),
        Err(e) => Err(e@),
    }
}

/// Whether the two texts are the same.
fn same_text(a: &str, b: &str) -> (r: bool)
    ensures
        r == (a@ == b@),
{
    let n = a.unicode_len();
    if n != b.unicode_len() {
        return false;
    }
    let mut i: usize = 0;
    while i < n
        invariant
            i <= n,
            n == a@.len(),
            n == b@.len(),
            a@.take(i as int) == b@.take(i as int),
        decreases n - i,
    {
        if a.get_char(i) != b.get_char(i) {
            return false;
        }
        assert(a@.take(i + 1) =~= a@.take(i as int).push(a@[i as int]));
        assert(b@.take(i + 1) =~= b@.take(i as int).push(b@[i as int]));
        i = i + 1;
    }
    assert(a@.take(n as int) =~= a@);
    assert(b@.take(n as int) =~= b@);
    true
}

/// Picks the way to open the interface from the scheme and the host of the
/// identifier `device_id`.
pub fn select_device(device_id: &str, url: DeviceUrl) -> (r: Result<TunDevice, ConfigError>)
    ensures
        device_result_view(r) == device_of(device_id@, url@),
{
    proof {
        reveal_strlit("fd");
        reveal_strlit("dev");
        assert("fd"@ =~= scheme_fd());
        assert("dev"@ =~= scheme_dev());
    }
    let is_fd = same_text(url.scheme.as_str(), "fd");
    if !is_fd && !same_text(url.scheme.as_str(), "dev") {
        return Err(ConfigError::UnknownScheme(device_id.to_owned()));
    }
    match url.host {
        None => Err(ConfigError::MissingHost(device_id.to_owned())),
        Some(host) => {
            if is_fd {
                match parse_fd(host.as_str()) {
                    Some(fd) => Ok(TunDevice::Fd(fd)),
                    None => Err(ConfigError::InvalidFd(device_id.to_owned())),
                }
            } else {
                Ok(TunDevice::Name(host))
            }
        },
    }
}

/// Reads a device identifier: `fd://<n>` names the open descriptor `n`,
/// `dev://<name>` the device `name` to create. Anything else is an error,
/// found before anything is opened.
pub fn parse_device_id(device_id: &str) -> (r: Result<TunDevice, ConfigError>)
    ensures
        device_result_view(r) == device_of_id(device_id@),
{
    match parse_url(device_id) {
        Ok(url) => select_device(device_id, url),
        Err(e) => Err(ConfigError::DeviceUrl(e)),
    }
}

/// The scheme decides how the interface is opened: under `fd` a host part
/// that spells a descriptor selects that descriptor, under `dev` the host
/// part is the name of the device to create, and under any other scheme
/// the identifier is refused whatever else it holds.
pub proof fn lemma_scheme_selects_device(device_id: Seq<char>, url: DeviceUrlView)
    ensures
        url.scheme == scheme_fd() ==> (url.host matches Some(host) ==> (fd_of(host) matches Some(fd)
            ==> device_of(device_id, url) == Ok::<TunDeviceView, ConfigFault>(
            TunDeviceView::Fd(fd),
        ))),
        url.scheme == scheme_dev() ==> (url.host matches Some(name) ==> device_of(device_id, url)
            == Ok::<TunDeviceView, ConfigFault>(TunDeviceView::Name(name))),
        url.scheme != scheme_fd() && url.scheme != scheme_dev() ==> device_of(device_id, url)
            == Err::<TunDeviceView, ConfigFault>(ConfigFault::UnknownScheme(device_id)),
        device_of(device_id, url) is Ok ==> url.host is Some && (url.scheme == scheme_fd()
            || url.scheme == scheme_dev()),
{
    assert(scheme_fd() != scheme_dev()) by {
        assert(scheme_fd().len() != scheme_dev().len());
    }
}

} // verus!
