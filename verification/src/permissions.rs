use vstd::prelude::*;
use crate::window_state::flags::Platform;

verus! {

/// What `char::to_uppercase` yields for `c`: its Unicode uppercase mapping
/// (the character itself where it has none).
pub uninterp spec fn uppercase_mapping(c: char) -> Seq<char>;

/// Whether `c` is an ASCII character.
pub open spec fn is_ascii_char(c: char) -> bool {
    c <= '\u{7f}'
}

/// Whether `c` is an ASCII lowercase letter.
pub open spec fn is_ascii_lower(c: char) -> bool {
    'a' <= c && c <= 'z'
}

/// The ASCII uppercase of `c`: the matching uppercase letter for `'a'..='z'`,
/// `c` itself otherwise.
pub open spec fn ascii_upper(c: char) -> char {
    if is_ascii_lower(c) {
        ((c as int) - 32) as char
    } else {
        c
    }
}

/// What uppercasing the character `c` gives: its ASCII uppercase for an ASCII
/// character, its Unicode uppercase mapping otherwise.
pub open spec fn first_upper(c: char) -> Seq<char> {
    if is_ascii_char(c) {
        seq![ascii_upper(c)]
    } else {
        uppercase_mapping(c)
    }
}

/// Calls std's `char::to_uppercase` and collects the characters it yields.
/// Trusted: the result is the uppercase mapping of `c`, a function of `c`
/// alone, and holds at least one character (std documents "one or more"); an
/// ASCII character maps to its single ASCII uppercase (`'a'..='z'` to
/// `'A'..='Z'`, every other ASCII character to itself), as the Unicode data
/// that std follows gives it (std's own example maps `'c'` to `"C"`). Nothing
/// more is stated of the mapping of a non-ASCII character.
#[verifier::external_body]
fn char_to_uppercase(c: char) -> (r: String)
    ensures
        r@ == uppercase_mapping(c),
        r@.len() >= 1,
        is_ascii_char(c) ==> r@ == seq![ascii_upper(c)],
{
    c.to_uppercase().collect::<String>()
}

/// `s` with its first character uppercased (see [`first_upper`]); the empty
/// string stays empty.
pub open spec fn capitalized(s: Seq<char>) -> Seq<char> {
    if s.len() == 0 {
        Seq::empty()
    } else {
        first_upper(s[0]) + s.drop_first()
    }
}

/// Uppercases the first character of `s` and keeps the rest as it is.
pub fn capitalize(s: &str) -> (r: String)
    ensures
        r@ == capitalized(s@),
        r@.len() >= s@.len(),
        s@.len() > 0 ==> r@.subrange(r@.len() - (s@.len() - 1), r@.len() as int) == s@.drop_first(),
        s@.len() > 0 && is_ascii_char(s@[0]) ==> r@ == seq![ascii_upper(s@[0])] + s@.drop_first(),
        vstd::utf8::is_ascii_chars(s@) ==> r@.len() == s@.len() && vstd::utf8::is_ascii_chars(r@),
{
    let n: usize = s.unicode_len();
    if n == 0 {
        return String::new();
    }
    let first = s.get_char(0);
    let rest = s.substring_char(1, n);
    let mut out = char_to_uppercase(first);
    out.append(rest);
    proof {
        assert(rest@ == s@.drop_first());
        let u = first_upper(s@[0]);
        assert(out@ == u + s@.drop_first());
        assert((u + s@.drop_first()).subrange(u.len() as int, (u + s@.drop_first()).len() as int)
            =~= s@.drop_first());
        if vstd::utf8::is_ascii_chars(s@) {
            lemma_capitalize_ascii(s@);
        }
    }
    out
}

/// On an ASCII string, capitalizing keeps the length and the tail, gives the
/// first character its ASCII uppercase, stays ASCII, and capitalizing again
/// changes nothing.
pub proof fn lemma_capitalize_ascii(s: Seq<char>)
    requires
        vstd::utf8::is_ascii_chars(s),
        s.len() > 0,
    ensures
        capitalized(s).len() == s.len(),
        capitalized(s)[0] == ascii_upper(s[0]),
        capitalized(s).drop_first() == s.drop_first(),
        vstd::utf8::is_ascii_chars(capitalized(s)),
        capitalized(capitalized(s)) == capitalized(s),
{
    let c = s[0];
    let t = capitalized(s);
    assert(is_ascii_char(c));
    assert(t == seq![ascii_upper(c)] + s.drop_first());
    assert(t.drop_first() =~= s.drop_first());
    assert(is_ascii_char(ascii_upper(c)));
    assert(ascii_upper(ascii_upper(c)) == ascii_upper(c));
    assert forall|i: int| 0 <= i < t.len() implies '\0' <= #[trigger] t[i] <= '\u{7f}' by {
        if i > 0 {
            assert(t[i] == s[i]);
        }
    }
    assert(capitalized(t) =~= t);
}

/// The bridge method that checks the permission `name`:
/// `check<Name>Permission`, with the first character of the name uppercased.
pub fn check_permission_method(name: &str) -> (r: String)
    ensures
        r@ == "check"@ + capitalized(name@) + "Permission"@,
{
    let mut r = String::from_str("check");
    let cap = capitalize(name);
    r.append(cap.as_str());
    r.append("Permission");
    r
}

/// The bridge method that requests the permission `name`:
/// `request<Name>Permission`, with the first character of the name uppercased.
pub fn request_permission_method(name: &str) -> (r: String)
    ensures
        r@ == "request"@ + capitalized(name@) + "Permission"@,
{
    let mut r = String::from_str("request");
    let cap = capitalize(name);
    r.append(cap.as_str());
    r.append("Permission");
    r
}

/// The logical name of the camera permission, mapped by the platform side to
/// the system permission.
pub fn camera_permission() -> (r: &'static str)
    ensures
        r@ == "camera"@,
{
    "camera"
}

/// Whether a permission check grants the permission, from the bridge's answer:
/// a failed call counts as not granted.
pub fn permission_granted(answer: Result<bool, String>) -> (r: bool)
    ensures
        r == (answer matches Ok(b) && b),
{
    match answer {
        Ok(b) => b,
        Err(_) => false,
    }
}

/// How a camera permission command is answered.
#[derive(Clone, Copy, Debug, PartialEq, Eq, Structural)]
pub enum PermissionStep {
    /// Ask the platform permission plugin about [`camera_permission`]; its
    /// answer to a check goes through [`permission_granted`], its answer to a
    /// request is passed on as it is.
    AskPlugin,
    /// Answer at once without asking any plugin: a check grants, a request
    /// succeeds and does nothing.
    Granted,
}

/// The camera permission check. On OpenHarmony the permission plugin is asked;
/// on the other platforms the permission counts as granted, and no plugin is
/// asked.
pub fn check_camera_permission(platform: Platform) -> (step: PermissionStep)
    ensures
        step == (if platform == Platform::Ohos {
            PermissionStep::AskPlugin
        } else {
            PermissionStep::Granted
        }),
{
    match platform {
        Platform::Ohos => PermissionStep::AskPlugin,
        Platform::Desktop => PermissionStep::Granted,
    }
}

/// The camera permission request. On OpenHarmony the permission plugin shows
/// the system permission dialog; on the other platforms the request does
/// nothing and succeeds.
pub fn request_camera_permission(platform: Platform) -> (step: PermissionStep)
    ensures
        step == (if platform == Platform::Ohos {
            PermissionStep::AskPlugin
        } else {
            PermissionStep::Granted
        }),
{
    match platform {
        Platform::Ohos => PermissionStep::AskPlugin,
        Platform::Desktop => PermissionStep::Granted,
    }
}

/// Accessibility permission: third-party apps cannot register accessibility
/// services on OpenHarmony, so it is never granted.
pub fn check_accessibility_permission() -> (r: bool)
    ensures
        r == false,
{
    false
}

/// Requesting the accessibility permission has no equivalent on OpenHarmony:
/// it does nothing and succeeds.
pub fn request_accessibility_permission() -> (r: Result<(), String>)
    ensures
        r is Ok,
{
    Ok(())
}

/// Full disk access has no equivalent in the OpenHarmony sandbox model and
/// counts as granted.
pub fn check_full_disk_access_permission() -> (r: bool)
    ensures
        r == true,
{
    true
}

/// Requesting full disk access does nothing and succeeds.
pub fn request_full_disk_access_permission() -> (r: Result<(), String>)
    ensures
        r is Ok,
{
    Ok(())
}

/// Screen capture is a system-level permission that third-party apps cannot
/// hold: never granted.
pub fn check_screen_recording_permission() -> (r: bool)
    ensures
        r == false,
{
    false
}

/// Requesting screen recording does nothing and succeeds.
pub fn request_screen_recording_permission() -> (r: Result<(), String>)
    ensures
        r is Ok,
{
    Ok(())
}

} // verus!
