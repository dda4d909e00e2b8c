//! Whether a newer release exists, and how to install it.
//!
//! Asking the package registry and running the package manager are the
//! caller's work. This module compares versions, reads the registry's
//! answer and picks the install command.

use crate::command_executor::{shell_flag, ShellCall};
use crate::json::{document, json_fault, Json};
use crate::text::{chars_of, decimal, digits_value, parse_decimal, same_text, unsigned_part};
use crate::ui::MenuSelector;
use vstd::prelude::*;

verus! {

/// The version of this release.
pub const CURRENT_VERSION: &'static str = "0.1.19";

/// The name of the package in the registry.
pub const PACKAGE_NAME: &'static str = "tella";

/// The number of a version component: what its digits write, and 0 where
/// the component is empty, holds anything but digits, or writes a number
/// above `u32::MAX`.
pub open spec fn component_value(s: Seq<char>) -> nat {
    match decimal(s, u32::MAX as nat) {
        Some(n) => n,
        None => 0,
    }
}

/// The components of a version: the texts between its dots.
pub open spec fn components(s: Seq<char>) -> Seq<Seq<char>>
    decreases s.len(),
{
    if s.len() == 0 {
        seq![Seq::empty()]
    } else if s.last() == '.' {
        components(s.drop_last()).push(Seq::empty())
    } else {
        components(s.drop_last()).drop_last().push(components(s.drop_last()).last().push(s.last()))
    }
}

/// The numbers of the components of a version.
pub open spec fn numbers(s: Seq<char>) -> Seq<nat> {
    components(s).map_values(|part: Seq<char>| component_value(part))
}

/// The number at `i`, and 0 past the end: a version that stops early
/// counts as if zeros followed.
pub open spec fn number_at(v: Seq<nat>, i: int) -> nat {
    if 0 <= i < v.len() {
        v[i]
    } else {
        0
    }
}

/// Whether the two versions agree before `i` and `latest` is greater at `i`.
pub open spec fn greater_at(latest: Seq<nat>, current: Seq<nat>, i: int) -> bool {
    &&& 0 <= i
    &&& number_at(latest, i) > number_at(current, i)
    &&& forall|j: int| 0 <= j < i ==> number_at(latest, j) == number_at(current, j)
}

/// Whether `latest` is the newer of two versions: at the first component
/// in which they differ, `latest` has the greater number.
pub open spec fn newer(latest: Seq<nat>, current: Seq<nat>) -> bool {
    exists|i: int| greater_at(latest, current, i)
}

/// Whether the version text `latest` is newer than the version text
/// `current`.
pub open spec fn is_newer(latest: Seq<char>, current: Seq<char>) -> bool {
    newer(numbers(latest), numbers(current))
}

/// The number of the version component that `v` holds from `from` up to `to`.
fn component_number(v: &Vec<char>, from: usize, to: usize) -> (r: u32)
    requires
        from <= to <= v.len(),
    ensures
        r == component_value(v@.subrange(from as int, to as int)),
{
    match parse_decimal(v, from, to, 0xffff_ffff) {
        Some(n) => n as u32,
        None => 0,
    }
}

/// The numbers of the components of a version.
pub fn version_numbers(version: &str) -> (r: Vec<u32>)
    ensures
        r@.len() == numbers(version@).len(),
        forall|i: int| 0 <= i < r@.len() ==> r@[i] == numbers(version@)[i],
{
    let v = chars_of(version);
    let mut out: Vec<u32> = Vec::new();
    let mut start: usize = 0;
    let mut i: usize = 0;
    let ghost mut parts: Seq<Seq<char>> = Seq::empty();
    proof {
        assert(v@.take(0) =~= Seq::<char>::empty());
        assert(components(v@.take(0)) =~= parts.push(v@.subrange(0, 0)));
    }
    while i < v.len()
        invariant
            start <= i <= v.len(),
            components(v@.take(i as int)) == parts.push(v@.subrange(start as int, i as int)),
            out@.len() == parts.len(),
            forall|k: int| 0 <= k < parts.len() ==> out@[k] == component_value(#[trigger] parts[k]),
        decreases v.len() - i,
    {
        let ghost before = v@.take(i as int);
        let ghost after = v@.take(i + 1);
        proof {
            assert(after.drop_last() =~= before);
            assert(after.last() == v@[i as int]);
        }
        if v[i] == '.' {
            let number = component_number(&v, start, i);
            out.push(number);
            proof {
                parts = parts.push(v@.subrange(start as int, i as int));
                assert(v@.subrange(i + 1, i + 1) =~= Seq::<char>::empty());
            }
            start = i + 1;
        } else {
            proof {
                let whole = parts.push(v@.subrange(start as int, i as int));
                assert(whole.drop_last() =~= parts);
                assert(whole.last().push(v@[i as int]) =~= v@.subrange(start as int, i + 1));
            }
        }
        i += 1;
    }
    let number = component_number(&v, start, i);
    out.push(number);
    proof {
        assert(v@.take(v.len() as int) =~= v@);
        let all = parts.push(v@.subrange(start as int, i as int));
        assert(components(version@) == all);
        assert(numbers(version@).len() == all.len());
        assert forall|k: int| 0 <= k < out@.len() implies out@[k] == numbers(version@)[k] by {
            if k < parts.len() {
                assert(all[k] == parts[k]);
            }
        }
    }
    out
}

/// The number at `i`, and 0 past the end.
fn number_or_zero(v: &Vec<u32>, i: usize) -> (r: u32)
    ensures
        r == number_at(v@.map_values(|n: u32| n as nat), i as int),
{
    if i < v.len() {
        v[i]
    } else {
        0
    }
}

/// Whether the version `latest` is newer than the version `current`.
///
/// The versions are compared component by component, as numbers. A version
/// with fewer components counts as if zeros followed.
pub fn version_newer(latest: &str, current: &str) -> (r: bool)
    ensures
        r == is_newer(latest@, current@),
{
    let a = version_numbers(latest);
    let b = version_numbers(current);
    let ghost x = numbers(latest@);
    let ghost y = numbers(current@);
    proof {
        assert(a@.map_values(|n: u32| n as nat) =~= x);
        assert(b@.map_values(|n: u32| n as nat) =~= y);
    }
    let n = if a.len() > b.len() {
        a.len()
    } else {
        b.len()
    };
    let mut i: usize = 0;
    while i < n
        invariant
            i <= n,
            n >= a.len(),
            n >= b.len(),
            x == numbers(latest@),
            y == numbers(current@),
            x == a@.map_values(|n: u32| n as nat),
            y == b@.map_values(|n: u32| n as nat),
            forall|j: int| 0 <= j < i ==> number_at(x, j) == number_at(y, j),
        decreases n - i,
    {
        let p = number_or_zero(&a, i);
        let q = number_or_zero(&b, i);
        if p > q {
            assert(greater_at(x, y, i as int));
            return true;
        }
        if p < q {
            assert forall|k: int| !greater_at(x, y, k) by {
                if greater_at(x, y, k) {
                    if k > i {
                        assert(number_at(x, i as int) == number_at(y, i as int));
                    }
                }
            }
            return false;
        }
        i += 1;
    }
    assert forall|k: int| !greater_at(x, y, k) by {
        if 0 <= k && k >= n {
            assert(number_at(x, k) == 0);
        }
    }
    false
}

/// Whether the version `latest` is newer than this release.
pub fn should_update(latest: &str) -> (r: bool)
    ensures
        r == is_newer(latest@, CURRENT_VERSION@),
{
    version_newer(latest, CURRENT_VERSION)
}

/// Zeros at the end of a version do not count: a version and the same
/// version with one more component `0` are newer than the same versions,
/// and the same versions are newer than both.
pub proof fn lemma_trailing_zero(version: Seq<char>, other: Seq<char>)
    ensures
        is_newer(version + seq!['.', '0'], other) == is_newer(version, other),
        is_newer(other, version + seq!['.', '0']) == is_newer(other, version),
{
    let longer = version + seq!['.', '0'];
    let dotted = version + seq!['.'];
    assert(longer.drop_last() =~= dotted);
    assert(dotted.drop_last() =~= version);
    assert(longer.last() == '0');
    assert(dotted.last() == '.');
    let parts = components(version);
    assert(components(dotted) == parts.push(Seq::empty()));
    assert(components(dotted).drop_last() =~= parts);
    assert(components(longer) =~= parts.push(seq!['0']));
    let zero = seq!['0'];
    assert(unsigned_part(zero) == zero);
    assert(zero.drop_last() =~= Seq::<char>::empty());
    assert(digits_value(zero) == 0) by {
        assert(digits_value(zero.drop_last()) == 0);
    }
    assert(zero[0] == '0');
    assert(component_value(zero) == 0);
    let x = numbers(version);
    let padded = numbers(longer);
    assert(padded =~= x.push(0));
    let y = numbers(other);
    assert forall|i: int| number_at(padded, i) == number_at(x, i) by {}
    assert forall|i: int| greater_at(padded, y, i) == greater_at(x, y, i) by {
        if greater_at(padded, y, i) {
            assert forall|j: int| 0 <= j < i implies number_at(x, j) == number_at(y, j) by {
                assert(number_at(padded, j) == number_at(x, j));
            }
        }
        if greater_at(x, y, i) {
            assert forall|j: int| 0 <= j < i implies number_at(padded, j) == number_at(y, j) by {
                assert(number_at(padded, j) == number_at(x, j));
            }
        }
    }
    assert forall|i: int| greater_at(y, padded, i) == greater_at(y, x, i) by {
        if greater_at(y, padded, i) {
            assert forall|j: int| 0 <= j < i implies number_at(y, j) == number_at(x, j) by {
                assert(number_at(padded, j) == number_at(x, j));
            }
        }
        if greater_at(y, x, i) {
            assert forall|j: int| 0 <= j < i implies number_at(y, j) == number_at(padded, j) by {
                assert(number_at(padded, j) == number_at(x, j));
            }
        }
    }
}

/// No version is newer than itself.
pub proof fn lemma_not_newer_than_itself(version: Seq<char>)
    ensures
        !is_newer(version, version),
{
}

/// The latest version in the registry's answer: the string under
/// `dist-tags`, `latest`.
pub open spec fn latest_in(body: Seq<char>) -> Result<Seq<char>, Seq<char>> {
    match document(body) {
        None => Err("Failed to parse npm response: "@ + json_fault(body)),
        Some(doc) => match doc.member("dist-tags"@) {
            Some(tags) => match tags.text_member("latest"@) {
                Some(latest) => Ok(latest),
                None => Err("Failed to parse npm response: missing field `latest`"@),
            },
            None => Err("Failed to parse npm response: missing field `dist-tags`"@),
        },
    }
}

/// The latest version in the registry's answer.
pub fn latest_version(body: &str) -> (r: Result<String, String>)
    ensures
        match r {
            Ok(latest) => latest_in(body@) == Ok::<Seq<char>, Seq<char>>(latest@),
            Err(error) => latest_in(body@) == Err::<Seq<char>, Seq<char>>(error@),
        },
{
    let doc = match Json::decode(body) {
        Ok(doc) => doc,
        Err(message) => {
            return Err(String::from_str("Failed to parse npm response: ").concat(message.as_str()));
        },
    };
    match doc.member("dist-tags") {
        Some(tags) => match tags.text_member("latest") {
            Some(latest) => Ok(latest.clone()),
            None => Err(String::from_str("Failed to parse npm response: missing field `latest`")),
        },
        None => Err(String::from_str("Failed to parse npm response: missing field `dist-tags`")),
    }
}

/// Where the registry tells of the package.
pub fn registry_url() -> (r: String)
    ensures
        r@ == "https://registry.npmjs.org/"@ + PACKAGE_NAME@,
{
    String::from_str("https://registry.npmjs.org/").concat(PACKAGE_NAME)
}

/// The package managers to choose from, in the order of their install
/// commands.
pub fn package_managers() -> (r: MenuSelector)
    ensures
        r@ == seq![("npm"@, ""@), ("bun"@, ""@), ("yarn"@, ""@), ("pnpm"@, ""@)],
{
    let menu = MenuSelector::new().add_option("npm", "").add_option("bun", "").add_option(
        "yarn",
        "",
    ).add_option("pnpm", "");
    assert(menu@ =~= seq![("npm"@, ""@), ("bun"@, ""@), ("yarn"@, ""@), ("pnpm"@, ""@)]);
    menu
}

/// The command that installs the latest release with the package manager
/// chosen; npm's where the menu was cancelled.
pub open spec fn install_command_text(choice: usize) -> Seq<char> {
    if choice == 1 {
        "bun install -g tella"@
    } else if choice == 2 {
        "yarn global add tella"@
    } else if choice == 3 {
        "pnpm add -g tella"@
    } else {
        "npm install -g tella"@
    }
}

/// The command that installs the latest release with the package manager
/// chosen.
pub fn install_command(choice: usize) -> (r: &'static str)
    ensures
        r@ == install_command_text(choice),
{
    if choice == 1 {
        "bun install -g tella"
    } else if choice == 2 {
        "yarn global add tella"
    } else if choice == 3 {
        "pnpm add -g tella"
    } else {
        "npm install -g tella"
    }
}

/// The shell that runs the install command on the operating system `os`:
/// `powershell -Command` on Windows and `bash -c` everywhere else.
pub fn install_shell(os: &str) -> (r: ShellCall)
    ensures
        r.program@ == (if os@ == "windows"@ {
            "powershell"@
        } else {
            "bash"@
        }),
        r.flag@ == shell_flag(os@),
{
    if same_text(os, "windows") {
        ShellCall { program: "powershell", flag: "-Command" }
    } else {
        ShellCall { program: "bash", flag: "-c" }
    }
}

/// The lines that tell of a newer release.
pub fn update_notice(latest: &str) -> (r: Vec<String>)
    ensures
        r@.len() == 6,
        r@[0]@ == ""@,
        r@[1]@ == "┌─────────────────────────────────────────┐"@,
        r@[2]@ == "│ 📦 Update available: "@ + CURRENT_VERSION@ + " → "@ + latest@ + " │"@,
        r@[3]@ == "│ Run: tella --upgrade                    │"@,
        r@[4]@ == "└─────────────────────────────────────────┘"@,
        r@[5]@ == ""@,
{
    let mut lines: Vec<String> = Vec::new();
    lines.push(String::from_str(""));
    lines.push(String::from_str("┌─────────────────────────────────────────┐"));
    lines.push(
        String::from_str("│ 📦 Update available: ").concat(CURRENT_VERSION).concat(" → ").concat(
            latest,
        ).concat(" │"),
    );
    lines.push(String::from_str("│ Run: tella --upgrade                    │"));
    lines.push(String::from_str("└─────────────────────────────────────────┘"));
    lines.push(String::from_str(""));
    lines
}

/// The line that tells of the upgrade under way.
pub fn upgrade_banner(latest: &str) -> (r: String)
    ensures
        r@ == "⬆️  Upgrading from "@ + CURRENT_VERSION@ + " to "@ + latest@ + "..."@,
{
    String::from_str("⬆️  Upgrading from ").concat(CURRENT_VERSION).concat(" to ").concat(
        latest,
    ).concat("...")
}

} // verus!
