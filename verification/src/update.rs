//! Finding out about newer releases of the app.

use crate::text::{after_prefix, decimal, is_digit, joined, occurs_at};
use vstd::prelude::*;

verus! {

/// How many seconds lie between two checks for an update: four hours.
pub const CHECK_INTERVAL_SECS: u64 = 14_400;

/// A version without pre-release and build parts.
pub open spec fn plain_version(major: u64, minor: u64, patch: u64) -> Seq<char> {
    decimal(major as nat) + "."@ + decimal(minor as nat) + "."@ + decimal(patch as nat)
}

/// The major, minor and patch numbers that `semver::Version::parse` reads from a
/// text; none if it does not accept the text.
pub uninterp spec fn version_numbers(text: Seq<char>) -> Option<(u64, u64, u64)>;

/// Whether the version that `semver::Version::parse` reads from the first text
/// is greater than the one that it reads from the second.
pub uninterp spec fn is_newer(version: Seq<char>, than: Seq<char>) -> bool;

/// Whether `a` comes after `b`, by the first number in which they differ.
pub open spec fn is_higher(a: (u64, u64, u64), b: (u64, u64, u64)) -> bool {
    a.0 > b.0 || (a.0 == b.0 && (a.1 > b.1 || (a.1 == b.1 && a.2 > b.2)))
}

/// `semver::Version::parse`: what it reads depends on the text alone. It reads
/// a plain version as what it is, and every version starts with a digit. Which
/// other texts are versions is not stated.
#[verifier::external_body]
fn parse_version(text: &str) -> (numbers: Option<(u64, u64, u64)>)
    ensures
        numbers == version_numbers(text@),
        forall|major: u64, minor: u64, patch: u64|
            text@ == #[trigger] plain_version(major, minor, patch) ==> numbers == Some(
                (major, minor, patch),
            ),
        numbers is Some ==> text@.len() > 0 && is_digit(text@[0]),
{
    semver::Version::parse(text).ok().map(|version| (version.major, version.minor, version.patch))
}

/// The order of `semver::Version`, on what `semver::Version::parse` reads from
/// two texts: it depends on the texts alone. Versions whose numbers differ are
/// ordered by them, and no version is newer than itself. How pre-release and
/// build parts are ordered is not stated.
#[verifier::external_body]
fn version_is_newer(version: &str, than: &str) -> (newer: bool)
    requires
        version_numbers(version@) is Some,
        version_numbers(than@) is Some,
    ensures
        newer == is_newer(version@, than@),
        version_numbers(version@) != version_numbers(than@) ==> newer == is_higher(
            version_numbers(version@)->0,
            version_numbers(than@)->0,
        ),
        newer ==> version@ != than@,
{
    semver::Version::parse(version).unwrap() > semver::Version::parse(than).unwrap()
}

/// A release of the app, as the release page lists it.
pub struct Release {
    pub tag_name: String,
    pub html_url: String,
}

/// The version text of a release tag, which may start with a `v`.
pub open spec fn tag_version(tag: Seq<char>) -> Seq<char> {
    if tag.len() > 0 && tag[0] == 'v' {
        tag.drop_first()
    } else {
        tag
    }
}

/// Whether a release with this tag is an update for the app of version
/// `current`: both are versions, and the tag's is the newer.
pub open spec fn is_update(tag: Seq<char>, current: Seq<char>) -> bool {
    &&& version_numbers(tag_version(tag)) is Some
    &&& version_numbers(current) is Some
    &&& is_newer(tag_version(tag), current)
}

/// The version text of a release tag.
fn version_of_tag<'a>(tag: &'a str) -> (version: &'a str)
    ensures
        version@ == tag_version(tag@),
{
    proof {
        reveal_strlit("v");
        assert(occurs_at(tag@, "v"@, 0) ==> tag@.subrange(0, 1)[0] == 'v');
        assert(tag@.len() > 0 && tag@[0] == 'v' ==> tag@.subrange(0, 1) =~= "v"@);
    }
    match after_prefix(tag, "v") {
        Some(version) => version,
        None => tag,
    }
}

/// What is offered, from how the release's version compares with the running
/// one; `None` if one of them is not a version.
pub fn offer(release: Release, newer: Option<bool>) -> (update: Option<(String, String)>)
    ensures
        update == if newer == Some(true) {
            Some((release.tag_name, release.html_url))
        } else {
            None
        },
{
    match newer {
        Some(true) => Some((release.tag_name, release.html_url)),
        _ => None,
    }
}

/// The update that `release` is for the app of version `current`, if it is one:
/// its tag and its page.
pub fn check_for_update(release: Release, current: &str) -> (update: Option<(String, String)>)
    ensures
        update == if is_update(release.tag_name@, current@) {
            Some((release.tag_name, release.html_url))
        } else {
            None
        },
        // Plain versions are compared by their numbers.
        forall|a: u64, b: u64, c: u64, x: u64, y: u64, z: u64|
            #![trigger plain_version(a, b, c), plain_version(x, y, z)]
            tag_version(release.tag_name@) == plain_version(a, b, c) && current@ == plain_version(
                x,
                y,
                z,
            ) ==> update is Some == is_higher((a, b, c), (x, y, z)),
        // A tag such as that of a dependency release is never offered.
        update is Some ==> tag_version(release.tag_name@).len() > 0 && is_digit(
            tag_version(release.tag_name@)[0],
        ),
        // Nor is the version that runs.
        update is Some ==> tag_version(release.tag_name@) != current@,
{
    let version = version_of_tag(&release.tag_name);
    let newer = if parse_version(version).is_some() && parse_version(current).is_some() {
        Some(version_is_newer(version, current))
    } else {
        None
    };
    offer(release, newer)
}

/// An entry of the list of releases, which also holds those of dependencies.
pub struct ListedRelease {
    pub release: Release,
    /// Whether it is a draft or a pre-release.
    pub unfinished: bool,
}

/// Whether an entry is a finished release of the app: one whose tag is a
/// version.
pub open spec fn is_app_release(listed: ListedRelease) -> bool {
    !listed.unfinished && version_numbers(tag_version(listed.release.tag_name@)) is Some
}

/// The first finished release of the app in a list.
pub open spec fn first_app_release(listed: Seq<ListedRelease>) -> Option<Release>
    decreases listed.len(),
{
    if listed.len() == 0 {
        None
    } else if is_app_release(listed[0]) {
        Some(listed[0].release)
    } else {
        first_app_release(listed.drop_first())
    }
}

/// Whether an entry is surely passed over: it is not finished, or its tag, such
/// as that of a dependency, does not start like a version.
pub open spec fn passed_over(listed: ListedRelease) -> bool {
    let version = tag_version(listed.release.tag_name@);
    listed.unfinished || version.len() == 0 || !is_digit(version[0])
}

/// Whether the entry at `i` is a finished release with the plain version
/// `numbers`, and every entry before it is passed over.
pub open spec fn leads(listed: Seq<ListedRelease>, i: int, numbers: (u64, u64, u64)) -> bool {
    &&& 0 <= i < listed.len()
    &&& !listed[i].unfinished
    &&& tag_version(listed[i].release.tag_name@) == plain_version(numbers.0, numbers.1, numbers.2)
    &&& forall|j: int| 0 <= j < i ==> passed_over(#[trigger] listed[j])
}

proof fn lemma_first_app_release(listed: Seq<ListedRelease>, at: int)
    requires
        0 <= at <= listed.len(),
        forall|i: int| 0 <= i < at ==> !is_app_release(#[trigger] listed[i]),
    ensures
        first_app_release(listed) == first_app_release(listed.skip(at)),
    decreases at,
{
    if at == 0 {
        assert(listed.skip(0) =~= listed);
    } else {
        let rest = listed.drop_first();
        assert forall|i: int| 0 <= i < at - 1 implies !is_app_release(#[trigger] rest[i]) by {
            assert(rest[i] == listed[i + 1]);
        }
        lemma_first_app_release(rest, at - 1);
        assert(rest.skip(at - 1) =~= listed.skip(at));
        assert(!is_app_release(listed[0]));
    }
}

/// The release that a list, newest first, has for the app.
pub fn select_release(listed: Vec<ListedRelease>) -> (selected: Option<Release>)
    ensures
        selected == first_app_release(listed@),
        // A dependency release is not selected.
        selected matches Some(release) ==> tag_version(release.tag_name@).len() > 0 && is_digit(
            tag_version(release.tag_name@)[0],
        ),
        // A plain version is not passed over for nothing.
        forall|i: int, a: u64, b: u64, c: u64|
            #![trigger listed@[i], plain_version(a, b, c)]
            0 <= i < listed@.len() && !listed@[i].unfinished && tag_version(
                listed@[i].release.tag_name@,
            ) == plain_version(a, b, c) ==> selected is Some,
        // After entries that are passed over, it is the one.
        forall|i: int, a: u64, b: u64, c: u64|
            #![trigger listed@[i], plain_version(a, b, c)]
            leads(listed@, i, (a, b, c)) ==> selected == Some(listed@[i].release),
{
    let ghost all = listed@;
    let mut entries = listed;
    let mut at: usize = 0;
    while at < entries.len()
        invariant
            at <= entries.len(),
            entries@ == all,
            listed@ == all,
            forall|i: int| 0 <= i < at ==> !is_app_release(#[trigger] all[i]),
            forall|i: int, a: u64, b: u64, c: u64|
                #![trigger all[i], plain_version(a, b, c)]
                0 <= i < at && !all[i].unfinished ==> tag_version(all[i].release.tag_name@)
                    != plain_version(a, b, c),
        decreases entries.len() - at,
    {
        if !entries[at].unfinished {
            let version = version_of_tag(&entries[at].release.tag_name);
            if parse_version(version).is_some() {
                proof {
                    lemma_first_app_release(all, at as int);
                    assert(all.skip(at as int)[0] == all[at as int]);
                    assert(is_app_release(all[at as int]));
                    assert forall|i: int, numbers: (u64, u64, u64)| #[trigger]
                        leads(all, i, numbers) implies i == at by {
                        if i < at {
                            let plain = plain_version(numbers.0, numbers.1, numbers.2);
                            assert(tag_version(all[i].release.tag_name@) != plain);
                        } else if i > at {
                            assert(passed_over(all[at as int]));
                        }
                    }
                }
                let found = entries.remove(at);
                return Some(found.release);
            }
        }
        at = at + 1;
    }
    proof {
        lemma_first_app_release(all, at as int);
        assert forall|i: int, numbers: (u64, u64, u64)| !(#[trigger] leads(all, i, numbers)) by {
            if leads(all, i, numbers) {
                let plain = plain_version(numbers.0, numbers.1, numbers.2);
                assert(tag_version(all[i].release.tag_name@) != plain);
            }
        }
    }
    None
}

/// The update that a list of releases, newest first, has for the app of version
/// `current`: the tag and the page of the app's newest release, if it is one.
pub fn find_update(listed: Vec<ListedRelease>, current: &str) -> (update: Option<(String, String)>)
    ensures
        update == match first_app_release(listed@) {
            Some(release) => if is_update(release.tag_name@, current@) {
                Some((release.tag_name, release.html_url))
            } else {
                None
            },
            None => None,
        },
        // Plain versions are compared by their numbers: a release that comes
        // after entries that are passed over is offered exactly if it is higher.
        forall|i: int, a: u64, b: u64, c: u64, x: u64, y: u64, z: u64|
            #![trigger listed@[i], plain_version(a, b, c), plain_version(x, y, z)]
            leads(listed@, i, (a, b, c)) && current@ == plain_version(x, y, z) ==> update == if
                is_higher((a, b, c), (x, y, z)) {
                Some((listed@[i].release.tag_name, listed@[i].release.html_url))
            } else {
                None
            },
        // A dependency release is never offered.
        update matches Some(found) ==> tag_version(found.0@).len() > 0 && is_digit(
            tag_version(found.0@)[0],
        ),
        // Nor is the version that runs.
        update matches Some(found) ==> tag_version(found.0@) != current@,
{
    match select_release(listed) {
        Some(release) => check_for_update(release, current),
        None => None,
    }
}

/// Where the releases of dependencies stand in the list makes no difference:
/// an entry whose tag is not a version can be left out.
pub proof fn law_dependency_releases_are_ignored(
    before: Seq<ListedRelease>,
    dependency: ListedRelease,
    after: Seq<ListedRelease>,
)
    requires
        version_numbers(tag_version(dependency.release.tag_name@)) is None,
    ensures
        first_app_release(before.push(dependency) + after) == first_app_release(before + after),
    decreases before.len(),
{
    let with = before.push(dependency) + after;
    let without = before + after;
    if before.len() == 0 {
        assert(with.drop_first() =~= after);
        assert(without =~= after);
    } else {
        let rest = before.drop_first();
        law_dependency_releases_are_ignored(rest, dependency, after);
        assert(with.drop_first() =~= rest.push(dependency) + after);
        assert(without.drop_first() =~= rest + after);
    }
}

/// What is to be done about checking for updates.
#[derive(Clone, Copy, Debug, PartialEq, Eq, Structural)]
pub enum CheckAction {
    /// Check now.
    Check,
    /// Wait so many seconds, then check.
    WaitThenCheck(u64),
}

/// The next check: at once when the app has just started, else after the
/// interval.
pub fn next_check(just_started: bool) -> (action: CheckAction)
    ensures
        action == if just_started {
            CheckAction::Check
        } else {
            CheckAction::WaitThenCheck(CHECK_INTERVAL_SECS)
        },
{
    if just_started {
        CheckAction::Check
    } else {
        CheckAction::WaitThenCheck(CHECK_INTERVAL_SECS)
    }
}

/// The log message for an update.
pub fn update_message(tag: &str) -> (message: String)
    ensures
        message@ == "[Update] New version available: "@ + tag@,
{
    joined("[Update] New version available: ", tag)
}

/// A tag is a version with or without one `v` before it.
pub proof fn law_tag_may_start_with_v(version: Seq<char>)
    ensures
        tag_version(seq!['v'] + version) == version,
        version.len() > 0 && version[0] != 'v' ==> tag_version(version) == version,
        version.len() == 0 ==> tag_version(version) == version,
{
    assert((seq!['v'] + version).drop_first() =~= version);
}

/// Versions are ordered by their first numbers that differ, and a version is not
/// higher than itself.
pub proof fn law_first_difference_decides(a: (u64, u64, u64), b: (u64, u64, u64))
    ensures
        a.0 != b.0 ==> is_higher(a, b) == (a.0 > b.0),
        a.0 == b.0 && a.1 != b.1 ==> is_higher(a, b) == (a.1 > b.1),
        a.0 == b.0 && a.1 == b.1 ==> is_higher(a, b) == (a.2 > b.2),
        a != b ==> is_higher(a, b) != is_higher(b, a),
{
}

/// The first finished release of the app in a list is the one, whatever follows;
/// drafts and pre-releases are passed over.
pub proof fn law_first_release_is_the_one(first: ListedRelease, rest: Seq<ListedRelease>)
    ensures
        ({
            let all = seq![first] + rest;
            let version = version_numbers(tag_version(first.release.tag_name@));
            &&& !first.unfinished && version is Some ==> first_app_release(all) == Some(
                first.release,
            )
            &&& first.unfinished || version is None ==> first_app_release(all)
                == first_app_release(rest)
        }),
        first_app_release(Seq::empty()) is None,
{
    let all = seq![first] + rest;
    assert(all[0] == first);
    assert(all.drop_first() =~= rest);
}

/// A release is offered exactly if its tag and the running version are versions
/// and its own is the newer of the two.
pub proof fn law_update_is_newer(tag: Seq<char>, current: Seq<char>)
    ensures
        is_update(tag, current) <==> version_numbers(tag_version(tag)) is Some && version_numbers(
            current,
        ) is Some && is_newer(tag_version(tag), current),
{
}

} // verus!
