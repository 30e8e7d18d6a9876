//! Server settings read from the environment, and what the server is
//! launched with.
use vstd::prelude::*;

use crate::text::{chars_of, str_eq};
use crate::upload::MEBIBYTE;

verus! {

/// Seconds in one week.
pub const WEEK_SECS: u64 = 604800;

/// The port the server listens on.
pub const PORT: u16 = 1337;

/// The value of an ASCII decimal digit.
pub open spec fn digit_value(c: char) -> int {
    c as int - '0' as int
}

pub open spec fn is_digit(c: char) -> bool {
    '0' <= c && c <= '9'
}

/// The number written by a sequence of decimal digits.
pub open spec fn decimal_value(s: Seq<char>) -> int
    decreases s.len(),
{
    if s.len() == 0 {
        0
    } else {
        10 * decimal_value(s.drop_last()) + digit_value(s.last())
    }
}

/// The digits of a numeral: the text after one optional leading `+`.
pub open spec fn numeral_digits(s: Seq<char>) -> Seq<char> {
    if s.len() > 0 && s[0] == '+' {
        s.skip(1)
    } else {
        s
    }
}

/// What parsing `s` as an unsigned integer of at most `max` gives, as the
/// standard library's `from_str` for unsigned integers does: one optional
/// leading `+`, then at least one decimal digit and nothing else, and a value
/// of at most `max`.
pub open spec fn parse_unsigned_spec(s: Seq<char>, max: int) -> Option<int> {
    let d = numeral_digits(s);
    if d.len() > 0 && (forall|i: int| 0 <= i < d.len() ==> is_digit(#[trigger] d[i]))
        && decimal_value(d) <= max {
        Some(decimal_value(d))
    } else {
        None
    }
}

proof fn lemma_decimal_nonneg(s: Seq<char>)
    requires
        forall|i: int| 0 <= i < s.len() ==> is_digit(#[trigger] s[i]),
    ensures
        decimal_value(s) >= 0,
    decreases s.len(),
{
    if s.len() > 0 {
        assert forall|i: int| 0 <= i < s.drop_last().len() implies is_digit(
            #[trigger] s.drop_last()[i],
        ) by {
            assert(s.drop_last()[i] == s[i]);
        }
        lemma_decimal_nonneg(s.drop_last());
    }
}

/// Parses `s` as an unsigned decimal integer of at most `max`.
pub fn parse_unsigned(s: &str, max: u64) -> (r: Option<u64>)
    ensures
        match r {
            Some(v) => parse_unsigned_spec(s@, max as int) == Some(v as int),
            None => parse_unsigned_spec(s@, max as int) is None,
        },
{
    let cs = chars_of(s);
    let start: usize = if cs.len() > 0 && cs[0] == '+' {
        1
    } else {
        0
    };
    let ghost d = numeral_digits(s@);
    assert(d =~= cs@.skip(start as int));
    if start >= cs.len() {
        return None;
    }
    let cap: u128 = max as u128 + 1;
    let mut acc: u128 = 0;
    let mut i: usize = start;
    assert(d.take(0) =~= Seq::<char>::empty());
    while i < cs.len()
        invariant
            cs@ == s@,
            d == cs@.skip(start as int),
            d == numeral_digits(s@),
            start <= i <= cs.len(),
            cap == max + 1,
            forall|k: int| 0 <= k < i - start ==> is_digit(#[trigger] d[k]),
            acc as int == if decimal_value(d.take(i - start)) < cap {
                decimal_value(d.take(i - start))
            } else {
                cap as int
            },
        decreases cs.len() - i,
    {
        let c = cs[i];
        if !('0' <= c && c <= '9') {
            assert(d[i - start] == c);
            assert(!is_digit(d[i - start]));
            return None;
        }
        let ghost prefix = d.take(i - start);
        let ghost next = d.take(i - start + 1);
        assert(next.drop_last() =~= prefix);
        assert(next.last() == c);
        assert(decimal_value(next) == 10 * decimal_value(prefix) + digit_value(c));
        assert forall|k: int| 0 <= k < prefix.len() implies is_digit(#[trigger] prefix[k]) by {
            assert(prefix[k] == d[k]);
        }
        proof {
            lemma_decimal_nonneg(prefix);
        }
        let dv: u128 = (c as u32 - '0' as u32) as u128;
        let grown: u128 = acc * 10 + dv;
        acc = if grown < cap {
            grown
        } else {
            cap
        };
        i = i + 1;
    }
    assert(d.take(i - start) =~= d);
    if acc < cap {
        Some(acc as u64)
    } else {
        None
    }
}

/// Why the settings could not be read: the variable whose value is not a
/// valid number.
#[derive(Debug, PartialEq, Eq, Structural)]
pub enum SettingError {
    RateLimit,
    FileAgeWeeks,
    UploadMaxSize,
}

/// The server's settings.
pub struct Settings {
    /// Requests per second allowed on the upload route (`ROCKET_RATE_LIMIT`).
    pub rate_limit: u32,
    /// The URL in returned links (`ROCKET_SERVER_URL`).
    pub server_url: String,
    /// Seconds an upload may live before the collector deletes it
    /// (`ROCKET_FILE_AGE_WEEKS`, in weeks).
    pub upload_max_age_secs: u64,
    /// Whether the periodic collector runs (`ROCKET_GARBAGE_COLLECTOR`).
    pub garbage_collector: bool,
    /// Largest accepted upload in MiB (`ROCKET_UPLOAD_MAX_SIZE`); its size in
    /// bytes fits in `u64`.
    pub upload_max_size: u64,
}

/// The settings that the values of the environment variables give: an absent
/// variable takes its documented default (rate limit 2, server URL
/// `http://localhost:1337`, 2 weeks, collector on, 20 MiB); the collector is
/// on exactly when its variable is `1`.
pub open spec fn settings_spec(
    rate_limit: Option<Seq<char>>,
    server_url: Option<Seq<char>>,
    file_age_weeks: Option<Seq<char>>,
    garbage_collector: Option<Seq<char>>,
    upload_max_size: Option<Seq<char>>,
    s: Settings,
) -> bool {
    &&& s.rate_limit == match rate_limit {
        Some(v) => parse_unsigned_spec(v, u32::MAX as int).unwrap(),
        None => 2,
    }
    &&& s.server_url@ == match server_url {
        Some(v) => v,
        None => "http://localhost:1337"@,
    }
    &&& s.upload_max_age_secs == WEEK_SECS * match file_age_weeks {
        Some(v) => parse_unsigned_spec(v, u64::MAX as int).unwrap(),
        None => 2,
    }
    &&& s.garbage_collector == match garbage_collector {
        Some(v) => v == "1"@,
        None => true,
    }
    &&& s.upload_max_size == match upload_max_size {
        Some(v) => parse_unsigned_spec(v, u64::MAX as int).unwrap(),
        None => 20,
    }
}

pub open spec fn opt_view(o: Option<&str>) -> Option<Seq<char>> {
    match o {
        Some(s) => Some(s@),
        None => None,
    }
}

/// Whether a present value fails to parse as an unsigned integer of at most `max`.
pub open spec fn bad_number(o: Option<&str>, max: int) -> bool {
    o matches Some(v) && parse_unsigned_spec(v@, max) is None
}

/// The maximum upload size in MiB, when it is present, parses but makes a
/// number of bytes beyond `u64`.
pub open spec fn size_overflows(o: Option<&str>) -> bool {
    o matches Some(v) && parse_unsigned_spec(v@, u64::MAX as int) matches Some(n) && n
        * MEBIBYTE > u64::MAX
}

/// The age limit in weeks, when it is present, parses but makes a number of
/// seconds beyond `u64`.
pub open spec fn age_overflows(o: Option<&str>) -> bool {
    o matches Some(v) && parse_unsigned_spec(v@, u64::MAX as int) matches Some(w) && WEEK_SECS
        * w > u64::MAX
}

fn parse_or(value: Option<&str>, default: u64, max: u64) -> (r: Option<u64>)
    requires
        default <= max,
    ensures
        match value {
            Some(v) => match r {
                Some(n) => parse_unsigned_spec(v@, max as int) == Some(n as int),
                None => parse_unsigned_spec(v@, max as int) is None,
            },
            None => r == Some(default),
        },
{
    match value {
        Some(v) => parse_unsigned(v, max),
        None => Some(default),
    }
}

impl Settings {
    /// Reads the settings from the values of the environment variables
    /// `ROCKET_RATE_LIMIT`, `ROCKET_SERVER_URL`, `ROCKET_FILE_AGE_WEEKS`,
    /// `ROCKET_GARBAGE_COLLECTOR` and `ROCKET_UPLOAD_MAX_SIZE` (`None` for an
    /// absent one). A number that does not parse, or an age in weeks whose
    /// seconds do not fit in `u64`, is reported as the first such variable in
    /// that order.
    pub fn from_values(
        rate_limit: Option<&str>,
        server_url: Option<&str>,
        file_age_weeks: Option<&str>,
        garbage_collector: Option<&str>,
        upload_max_size: Option<&str>,
    ) -> (r: Result<Settings, SettingError>)
        ensures
            match r {
                Ok(s) => settings_spec(
                    opt_view(rate_limit),
                    opt_view(server_url),
                    opt_view(file_age_weeks),
                    opt_view(garbage_collector),
                    opt_view(upload_max_size),
                    s,
                ),
                Err(e) => e == if bad_number(rate_limit, u32::MAX as int) {
                    SettingError::RateLimit
                } else if bad_number(file_age_weeks, u64::MAX as int) || age_overflows(
                    file_age_weeks,
                ) {
                    SettingError::FileAgeWeeks
                } else {
                    SettingError::UploadMaxSize
                },
            },
            r matches Ok(s) ==> s.upload_max_size * MEBIBYTE <= u64::MAX,
            r is Err <==> (bad_number(rate_limit, u32::MAX as int) || bad_number(
                file_age_weeks,
                u64::MAX as int,
            ) || age_overflows(file_age_weeks) || bad_number(upload_max_size, u64::MAX as int)
                || size_overflows(upload_max_size)),
    {
        let rate = match parse_or(rate_limit, 2, 4294967295) {
            Some(n) => n,
            None => return Err(SettingError::RateLimit),
        };
        let weeks = match parse_or(file_age_weeks, 2, 18446744073709551615) {
            Some(n) => n,
            None => return Err(SettingError::FileAgeWeeks),
        };
        let age = match weeks.checked_mul(WEEK_SECS) {
            Some(a) => a,
            None => return Err(SettingError::FileAgeWeeks),
        };
        let size = match parse_or(upload_max_size, 20, 18446744073709551615) {
            Some(n) => n,
            None => return Err(SettingError::UploadMaxSize),
        };
        if size.checked_mul(MEBIBYTE).is_none() {
            return Err(SettingError::UploadMaxSize);
        }
        let url = match server_url {
            Some(u) => String::from_str(u),
            None => String::from_str("http://localhost:1337"),
        };
        let gc = match garbage_collector {
            Some(g) => str_eq(g, "1"),
            None => true,
        };
        Ok(
            Settings {
                rate_limit: rate as u32,
                server_url: url,
                upload_max_age_secs: age,
                garbage_collector: gc,
                upload_max_size: size,
            },
        )
    }
}

/// A size in MiB, in bytes.
pub fn mebibytes(n: u64) -> (b: u64)
    requires
        n * MEBIBYTE <= u64::MAX,
    ensures
        b == n * MEBIBYTE,
{
    n * MEBIBYTE
}

/// The rate-limit guard of the upload route.
pub struct RateLimitGuard;

impl RateLimitGuard {
    /// Requests per second granted for a configured rate limit: the quota
    /// needs a non-zero count, so a limit of 0 is raised to 1.
    pub fn requests_per_second(rate_limit: u32) -> (r: u32)
        ensures
            r == (if rate_limit == 0 {
                1
            } else {
                rate_limit
            }),
            r > 0,
    {
        if rate_limit == 0 {
            1
        } else {
            rate_limit
        }
    }
}

/// What the server is launched with.
pub struct LaunchPlan {
    /// Whether the periodic collector is started.
    pub run_collector: bool,
    /// The limit of the `data-form` data, in bytes.
    pub data_form_limit: u64,
    /// The limit of the `upload/image` data, in bytes.
    pub upload_image_limit: u64,
    /// The listening port.
    pub port: u16,
    /// Requests per second on the upload route.
    pub requests_per_second: u32,
}

/// The launch plan for the given settings: the collector runs when it is
/// enabled, both data limits are the maximum upload size in MiB, and the
/// server listens on port 1337.
pub fn launch_plan(settings: &Settings) -> (p: LaunchPlan)
    requires
        settings.upload_max_size * MEBIBYTE <= u64::MAX,
    ensures
        p.run_collector == settings.garbage_collector,
        p.data_form_limit == settings.upload_max_size * MEBIBYTE,
        p.upload_image_limit == settings.upload_max_size * MEBIBYTE,
        p.port == 1337,
        p.requests_per_second == (if settings.rate_limit == 0 {
            1
        } else {
            settings.rate_limit
        }),
{
    LaunchPlan {
        run_collector: settings.garbage_collector,
        data_form_limit: mebibytes(settings.upload_max_size),
        upload_image_limit: mebibytes(settings.upload_max_size),
        port: PORT,
        requests_per_second: RateLimitGuard::requests_per_second(settings.rate_limit),
    }
}

/// Law: with none of the variables set, the settings are the documented
/// defaults: 2 requests per second, `http://localhost:1337`, uploads kept two
/// weeks (1209600 seconds), the collector on, uploads of at most 20 MiB.
pub proof fn defaults_when_unset(s: Settings)
    requires
        settings_spec(None, None, None, None, None, s),
    ensures
        s.rate_limit == 2,
        s.server_url@ == "http://localhost:1337"@,
        s.upload_max_age_secs == 1209600,
        s.garbage_collector,
        s.upload_max_size == 20,
{
}

/// Law: any maximum upload size whose byte count fits in `u64` is accepted
/// as it is written, in MiB.
pub proof fn size_limit_in_mebibytes(v: Seq<char>, s: Settings, n: int)
    requires
        settings_spec(None, None, None, None, Some(v), s),
        parse_unsigned_spec(v, u64::MAX as int) == Some(n),
    ensures
        s.upload_max_size == n,
{
}

/// Law: the collector runs exactly when its variable is `1` or unset.
pub proof fn collector_switch(value: Option<Seq<char>>, s: Settings)
    requires
        settings_spec(None, None, None, value, None, s),
    ensures
        s.garbage_collector <==> (value is None || value == Some("1"@)),
{
}

/// Law: a rate limit that is set is taken as written, whatever the other
/// variables hold: a value of `n` allows `n` requests per second.
pub proof fn rate_limit_as_written(
    v: Seq<char>,
    server_url: Option<Seq<char>>,
    file_age_weeks: Option<Seq<char>>,
    garbage_collector: Option<Seq<char>>,
    upload_max_size: Option<Seq<char>>,
    s: Settings,
    n: int,
)
    requires
        settings_spec(Some(v), server_url, file_age_weeks, garbage_collector, upload_max_size, s),
        parse_unsigned_spec(v, u32::MAX as int) == Some(n),
    ensures
        s.rate_limit == n,
{
}

/// Law: a server URL that is set is used as it is, whatever the other
/// variables hold.
pub proof fn server_url_as_written(
    rate_limit: Option<Seq<char>>,
    v: Seq<char>,
    file_age_weeks: Option<Seq<char>>,
    garbage_collector: Option<Seq<char>>,
    upload_max_size: Option<Seq<char>>,
    s: Settings,
)
    requires
        settings_spec(rate_limit, Some(v), file_age_weeks, garbage_collector, upload_max_size, s),
    ensures
        s.server_url@ == v,
{
}

/// Law: an age limit of `w` weeks that is set keeps uploads `w` × 604800
/// seconds, whatever the other variables hold.
pub proof fn age_limit_in_weeks(
    rate_limit: Option<Seq<char>>,
    server_url: Option<Seq<char>>,
    v: Seq<char>,
    garbage_collector: Option<Seq<char>>,
    upload_max_size: Option<Seq<char>>,
    s: Settings,
    w: int,
)
    requires
        settings_spec(rate_limit, server_url, Some(v), garbage_collector, upload_max_size, s),
        parse_unsigned_spec(v, u64::MAX as int) == Some(w),
    ensures
        s.upload_max_age_secs == w * 604800,
{
    assert(WEEK_SECS * w == w * 604800) by (nonlinear_arith)
        requires WEEK_SECS == 604800;
}

/// Law: a maximum upload size of `m` that is set allows `m` MiB, and the
/// collector switch is read from its own variable, whatever the other
/// variables hold.
pub proof fn size_and_collector_as_written(
    rate_limit: Option<Seq<char>>,
    server_url: Option<Seq<char>>,
    file_age_weeks: Option<Seq<char>>,
    garbage_collector: Seq<char>,
    v: Seq<char>,
    s: Settings,
    m: int,
)
    requires
        settings_spec(rate_limit, server_url, file_age_weeks, Some(garbage_collector), Some(v), s),
        parse_unsigned_spec(v, u64::MAX as int) == Some(m),
    ensures
        s.upload_max_size == m,
        s.garbage_collector <==> garbage_collector == "1"@,
{
}

/// Law: a numeral is read digit by digit in base ten: a digit written after
/// a numeral of value `n` gives `10 × n` plus that digit, as long as the
/// result stays within `max`.
pub proof fn numerals_are_decimal(s: Seq<char>, c: char, max: int, n: int)
    requires
        parse_unsigned_spec(s, max) == Some(n),
        '0' <= c <= '9',
        10 * n + (c as int - 48) <= max,
    ensures
        parse_unsigned_spec(s.push(c), max) == Some(10 * n + (c as int - 48)),
{
    let d = numeral_digits(s);
    let e = numeral_digits(s.push(c));
    if s.len() > 0 && s[0] == '+' {
        assert(e =~= d.push(c));
    } else {
        assert(e =~= d.push(c));
    }
    assert(e.drop_last() =~= d);
    assert forall|i: int| 0 <= i < e.len() implies is_digit(#[trigger] e[i]) by {
        if i < d.len() {
            assert(e[i] == d[i]);
        }
    }
}

/// Law: a single digit reads as its value, with or without a leading `+`.
pub proof fn digits_read_as_their_value(c: char, max: int)
    requires
        '0' <= c <= '9',
        c as int - 48 <= max,
    ensures
        parse_unsigned_spec(seq![c], max) == Some(c as int - 48),
        parse_unsigned_spec(seq!['+', c], max) == Some(c as int - 48),
{
    assert(decimal_value(Seq::<char>::empty()) == 0);
    assert(numeral_digits(seq![c]) =~= seq![c]);
    assert(numeral_digits(seq!['+', c]) =~= seq![c]);
    assert(seq![c].drop_last() =~= Seq::<char>::empty());
}

} // verus!
