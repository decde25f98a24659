use vstd::prelude::*;

use crate::version::{parse_version, parsed_version, Version};

verus! {

/// What one entry of the parse results contributes to the outcome: the
/// version where it parsed and is strictly newer, nothing otherwise.
pub open spec fn spec_kept(running: Version, entry: Option<Version>) -> Seq<Version> {
    match entry {
        Some(v) => if v.spec_newer_than(running) {
            seq![v]
        } else {
            Seq::empty()
        },
        None => Seq::empty(),
    }
}

/// The versions strictly newer than `running` among the parse results,
/// unparseable entries dropped, input order kept.
pub open spec fn spec_filter_newer(running: Version, parsed: Seq<Option<Version>>) -> Seq<Version>
    decreases parsed.len(),
{
    if parsed.len() == 0 {
        Seq::empty()
    } else {
        spec_filter_newer(running, parsed.drop_last()) + spec_kept(running, parsed.last())
    }
}

/// The parse result of every release string, in input order.
pub open spec fn spec_parse_all(releases: Seq<Seq<char>>) -> Seq<Option<Version>> {
    releases.map_values(|s: Seq<char>| parsed_version(s))
}

/// The versions among `releases` that parse and are strictly newer than
/// `running`, in input order.
pub open spec fn spec_newer_versions(running: Version, releases: Seq<Seq<char>>) -> Seq<Version> {
    spec_filter_newer(running, spec_parse_all(releases))
}

proof fn lemma_filter_newer_push(running: Version, parsed: Seq<Option<Version>>, entry: Option<
    Version,
>)
    ensures
        spec_filter_newer(running, parsed.push(entry)) == spec_filter_newer(running, parsed)
            + spec_kept(running, entry),
{
    assert(parsed.push(entry).drop_last() =~= parsed);
    assert(parsed.push(entry).last() == entry);
}

/// Parses each release string as a semantic version and keeps, in input
/// order, exactly those strictly newer than `running`; strings that fail
/// to parse are silently dropped.
pub fn newer_versions(running: &Version, releases: &Vec<String>) -> (r: Vec<Version>)
    ensures
        r@ == spec_newer_versions(*running, releases.deep_view()),
{
    let ghost dv = releases.deep_view();
    let mut r: Vec<Version> = Vec::new();
    let mut i: usize = 0;
    while i < releases.len()
        invariant
            i <= releases.len(),
            dv == releases.deep_view(),
            r@ == spec_filter_newer(*running, spec_parse_all(dv.take(i as int))),
        decreases releases.len() - i,
    {
        let parsed = parse_version(releases[i].as_str());
        proof {
            assert(dv[i as int] == releases@[i as int]@);
            assert(dv.take(i as int + 1) =~= dv.take(i as int).push(dv[i as int]));
            assert(spec_parse_all(dv.take(i as int).push(dv[i as int])) =~= spec_parse_all(
                dv.take(i as int),
            ).push(parsed_version(dv[i as int])));
            lemma_filter_newer_push(
                *running,
                spec_parse_all(dv.take(i as int)),
                parsed_version(dv[i as int]),
            );
        }
        match parsed {
            Some(v) => {
                if v.is_newer_than(running) {
                    r.push(v);
                    proof {
                        assert(r@ =~= spec_filter_newer(
                            *running,
                            spec_parse_all(dv.take(i as int + 1)),
                        ));
                    }
                } else {
                    proof {
                        assert(r@ =~= spec_filter_newer(
                            *running,
                            spec_parse_all(dv.take(i as int + 1)),
                        ));
                    }
                }
            },
            None => {
                proof {
                    assert(r@ =~= spec_filter_newer(
                        *running,
                        spec_parse_all(dv.take(i as int + 1)),
                    ));
                }
            },
        }
        i = i + 1;
    }
    proof {
        assert(dv.take(releases@.len() as int) =~= dv);
    }
    r
}

/// Where no entry of the parse results is strictly newer than the
/// running version, the filtered sequence is empty: a release list that
/// holds only versions at or below the running one means "up to date".
pub proof fn lemma_no_newer_means_empty(running: Version, parsed: Seq<Option<Version>>)
    requires
        forall|i: int|
            0 <= i < parsed.len() ==> (#[trigger] parsed[i] matches Some(v)
                ==> !v.spec_newer_than(running)),
    ensures
        spec_filter_newer(running, parsed) == Seq::<Version>::empty(),
    decreases parsed.len(),
{
    if parsed.len() > 0 {
        assert(forall|i: int|
            0 <= i < parsed.drop_last().len() ==> #[trigger] parsed.drop_last()[i] == parsed[i]);
        lemma_no_newer_means_empty(running, parsed.drop_last());
        assert(parsed.last() == parsed[parsed.len() - 1]);
        assert(spec_kept(running, parsed.last()) =~= Seq::<Version>::empty());
        assert(spec_filter_newer(running, parsed) =~= Seq::<Version>::empty());
    }
}

/// Unparseable entries are dropped without a trace: removing a `None`
/// from anywhere in the parse results leaves the filtered sequence
/// unchanged, so the parseable newer versions come out in their original
/// relative order whatever stood between them.
pub proof fn lemma_unparseable_dropped(
    running: Version,
    prefix: Seq<Option<Version>>,
    suffix: Seq<Option<Version>>,
)
    ensures
        spec_filter_newer(running, prefix + seq![None] + suffix) == spec_filter_newer(
            running,
            prefix + suffix,
        ),
    decreases suffix.len(),
{
    if suffix.len() == 0 {
        assert(prefix + seq![None] + suffix =~= prefix.push(None));
        assert(prefix + suffix =~= prefix);
        lemma_filter_newer_push(running, prefix, None);
        assert(spec_filter_newer(running, prefix) + spec_kept(running, None)
            =~= spec_filter_newer(running, prefix));
    } else {
        let shorter = suffix.drop_last();
        let entry = suffix.last();
        lemma_unparseable_dropped(running, prefix, shorter);
        assert(prefix + seq![None] + suffix =~= (prefix + seq![None] + shorter).push(entry));
        assert(prefix + suffix =~= (prefix + shorter).push(entry));
        lemma_filter_newer_push(running, prefix + seq![None] + shorter, entry);
        lemma_filter_newer_push(running, prefix + shorter, entry);
    }
}

/// The check is a pure function of its inputs: any two results that
/// `newer_versions` may return for the same running version and the same
/// release list are identical.
pub proof fn lemma_newer_versions_deterministic(
    running: Version,
    releases: Seq<Seq<char>>,
    r1: Seq<Version>,
    r2: Seq<Version>,
)
    requires
        r1 == spec_newer_versions(running, releases),
        r2 == spec_newer_versions(running, releases),
    ensures
        r1 == r2,
{
}

/// Whether one release string is kept by the string-level filter: it
/// parses as a semantic version strictly newer than `running`.
pub open spec fn spec_keeps_string(running: Version, s: Seq<char>) -> bool {
    parsed_version(s) matches Some(v) && v.spec_newer_than(running)
}

/// The release strings whose versions are strictly newer than `running`,
/// in input order, unparseable strings dropped.
pub open spec fn spec_newer_version_strings(running: Version, releases: Seq<Seq<char>>) -> Seq<
    Seq<char>,
>
    decreases releases.len(),
{
    if releases.len() == 0 {
        Seq::empty()
    } else {
        spec_newer_version_strings(running, releases.drop_last()) + (if spec_keeps_string(
            running,
            releases.last(),
        ) {
            seq![releases.last()]
        } else {
            Seq::empty()
        })
    }
}

proof fn lemma_newer_strings_push(running: Version, releases: Seq<Seq<char>>, s: Seq<char>)
    ensures
        spec_newer_version_strings(running, releases.push(s)) == spec_newer_version_strings(
            running,
            releases,
        ) + (if spec_keeps_string(running, s) {
            seq![s]
        } else {
            Seq::<Seq<char>>::empty()
        }),
{
    assert(releases.push(s).drop_last() =~= releases);
    assert(releases.push(s).last() == s);
}

/// Keeps, in input order, exactly the release strings that parse as a
/// semantic version strictly newer than `running`.
pub fn newer_version_strings(running: &Version, releases: &Vec<String>) -> (r: Vec<String>)
    ensures
        r.deep_view() == spec_newer_version_strings(*running, releases.deep_view()),
{
    let ghost dv = releases.deep_view();
    let mut r: Vec<String> = Vec::new();
    let mut i: usize = 0;
    while i < releases.len()
        invariant
            i <= releases.len(),
            dv == releases.deep_view(),
            r.deep_view() == spec_newer_version_strings(*running, dv.take(i as int)),
        decreases releases.len() - i,
    {
        proof {
            assert(dv[i as int] == releases@[i as int]@);
            assert(dv.take(i as int + 1) =~= dv.take(i as int).push(dv[i as int]));
            lemma_newer_strings_push(*running, dv.take(i as int), dv[i as int]);
        }
        let ghost pre = r.deep_view();
        let keep: bool = match parse_version(releases[i].as_str()) {
            Some(v) => v.is_newer_than(running),
            None => false,
        };
        if keep {
            r.push(releases[i].clone());
            proof {
                assert(r.deep_view() =~= pre.push(dv[i as int]));
                assert(r.deep_view() =~= spec_newer_version_strings(*running, dv.take(i as int + 1)));
            }
        } else {
            proof {
                assert(r.deep_view() =~= spec_newer_version_strings(*running, dv.take(i as int + 1)));
            }
        }
        i = i + 1;
    }
    proof {
        assert(dv.take(releases@.len() as int) =~= dv);
    }
    r
}

/// The errors an update check can end in: the release list could not be
/// fetched, or a version string was not a semantic version.
#[derive(Clone, Copy, Debug, PartialEq, Eq, Structural)]
pub enum MyError {
    SemVerError,
    SelfUpdateError,
}

/// What one update check reports to a caller.
#[derive(Clone, Copy, Debug, PartialEq, Eq, Structural)]
pub enum UpdateCheckingStatus {
    UpdatesAvailable(u64, u64, u64),
    UpToDate,
    Error,
}

/// The status that one fetch-and-compare outcome denotes: the first
/// newer version's triple where there is one, up to date where the list
/// is empty, and an error where the fetch itself failed.
pub fn updates_available(result: &Result<Vec<Version>, MyError>) -> (s: UpdateCheckingStatus)
    ensures
        match *result {
            Ok(versions) => s == (if versions@.len() > 0 {
                UpdateCheckingStatus::UpdatesAvailable(
                    versions@[0].major,
                    versions@[0].minor,
                    versions@[0].patch,
                )
            } else {
                UpdateCheckingStatus::UpToDate
            }),
            Err(_) => s == UpdateCheckingStatus::Error,
        },
{
    match result {
        Ok(versions) => {
            if versions.len() > 0 {
                let first = versions[0];
                UpdateCheckingStatus::UpdatesAvailable(first.major, first.minor, first.patch)
            } else {
                UpdateCheckingStatus::UpToDate
            }
        },
        Err(_) => UpdateCheckingStatus::Error,
    }
}

} // verus!
