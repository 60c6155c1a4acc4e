//! The plugins of the media framework that the client needs.

use crate::error::MissingElements;
use crate::text::{names, same_text};
use vstd::prelude::*;

verus! {

/// The names of the plugins that have to be installed.
pub open spec fn needed() -> Seq<Seq<char>> {
    seq![
        "opus"@,
        "vpx"@,
        "nice"@,
        "webrtc"@,
        "dtls"@,
        "srtp"@,
        "rtpmanager"@,
        "videotestsrc"@,
        "audiotestsrc"@,
        "pulseaudio"@,
    ]
}

/// Whether a name is among those of the installed plugins.
pub open spec fn is_installed(installed: Seq<String>, plugin: Seq<char>) -> bool {
    exists|i: int| 0 <= i < installed.len() && #[trigger] installed[i]@ == plugin
}

/// The names that are not among those of the installed plugins, in their order.
pub open spec fn missing(plugins: Seq<Seq<char>>, installed: Seq<String>) -> Seq<Seq<char>> {
    plugins.filter(|plugin: Seq<char>| !is_installed(installed, plugin))
}

/// Lists the names of the plugins that have to be installed.
pub fn needed_plugins() -> (plugins: Vec<&'static str>)
    ensures
        names(plugins@) == needed(),
{
    let plugins = vec![
        "opus",
        "vpx",
        "nice",
        "webrtc",
        "dtls",
        "srtp",
        "rtpmanager",
        "videotestsrc",
        "audiotestsrc",
        "pulseaudio",
    ];
    assert(names(plugins@) =~= needed());
    plugins
}

/// Whether a plugin is among the installed ones.
fn find_plugin(installed: &Vec<String>, plugin: &str) -> (found: bool)
    ensures
        found == is_installed(installed@, plugin@),
{
    let mut i: usize = 0;
    while i < installed.len()
        invariant
            i <= installed@.len(),
            forall|j: int| 0 <= j < i ==> #[trigger] installed@[j]@ != plugin@,
        decreases installed@.len() - i,
    {
        if same_text(installed[i].as_str(), plugin) {
            return true;
        }
        i += 1;
    }
    false
}

/// Checks that every plugin that the client needs is installed; the error lists those that are
/// not.
pub fn check_plugins(installed: &Vec<String>) -> (result: Result<(), MissingElements>)
    ensures
        match result {
            Ok(()) => missing(needed(), installed@).len() == 0,
            Err(error) => {
                &&& names(error.0@) == missing(needed(), installed@)
                &&& error.0@.len() > 0
            },
        },
        result is Ok <==> forall|p: int|
            0 <= p < needed().len() ==> exists|i: int|
                0 <= i < installed@.len() && #[trigger] installed@[i]@ == #[trigger] needed()[p],
{
    let plugins = needed_plugins();
    let mut absent: Vec<&'static str> = Vec::new();
    let mut i: usize = 0;
    let ghost is_absent = |plugin: Seq<char>| !is_installed(installed@, plugin);
    assert(needed().take(0).filter(is_absent) =~= Seq::<Seq<char>>::empty()) by {
        reveal(Seq::filter);
    }
    while i < plugins.len()
        invariant
            names(plugins@) == needed(),
            plugins@.len() == needed().len(),
            i <= plugins@.len(),
            is_absent == (|plugin: Seq<char>| !is_installed(installed@, plugin)),
            names(absent@) == needed().take(i as int).filter(is_absent),
        decreases plugins@.len() - i,
    {
        let plugin = plugins[i];
        proof {
            let before = needed().take(i as int);
            assert(names(plugins@)[i as int] == plugin@);
            assert(needed().take(i + 1) =~= before.push(plugin@));
            before.lemma_filter_push(plugin@, is_absent);
        }
        if !find_plugin(installed, plugin) {
            absent.push(plugin);
        }
        assert(names(absent@) =~= needed().take(i + 1).filter(is_absent));
        i += 1;
    }
    assert(needed().take(i as int) =~= needed());
    assert(names(absent@).len() == absent@.len());
    proof {
        law_missing_plugins_by_name(installed@);
    }
    if absent.len() == 0 {
        Ok(())
    } else {
        Err(MissingElements(absent))
    }
}

/// A plugin is missed exactly if it is needed and not installed; so nothing is missed exactly if
/// every needed plugin is installed.
pub proof fn law_missing_plugins(installed: Seq<String>)
    ensures
        forall|plugin: Seq<char>| #[trigger]
            missing(needed(), installed).contains(plugin) <==> needed().contains(plugin)
                && !is_installed(installed, plugin),
        missing(needed(), installed).len() == 0 <==> forall|i: int|
            0 <= i < needed().len() ==> is_installed(installed, #[trigger] needed()[i]),
{
    let is_absent = |plugin: Seq<char>| !is_installed(installed, plugin);
    let absent = missing(needed(), installed);
    assert forall|plugin: Seq<char>| #[trigger] absent.contains(plugin) implies needed().contains(
        plugin,
    ) && !is_installed(installed, plugin) by {
        needed().lemma_filter_contains_rev(is_absent, plugin);
        let i = choose|i: int| 0 <= i < absent.len() && absent[i] == plugin;
        needed().lemma_filter_pred(is_absent, i);
    }
    assert forall|plugin: Seq<char>|
        needed().contains(plugin) && !is_installed(installed, plugin) implies #[trigger]
        absent.contains(plugin) by {
        let i = choose|i: int| 0 <= i < needed().len() && needed()[i] == plugin;
        needed().lemma_filter_contains(is_absent, i);
    }
    if absent.len() == 0 {
        assert forall|i: int| 0 <= i < needed().len() implies is_installed(
            installed,
            #[trigger] needed()[i],
        ) by {
            assert(needed().contains(needed()[i]));
            assert(!absent.contains(needed()[i]));
        }
    } else {
        assert(absent.contains(absent[0]));
        let i = choose|i: int| 0 <= i < needed().len() && needed()[i] == absent[0];
        assert(!is_installed(installed, needed()[i]));
    }
}

/// A plugin is missed exactly if it is needed and none of the installed ones has the same name,
/// character for character; so none is missed exactly if each of them is found under its own
/// name.
pub proof fn law_missing_plugins_by_name(installed: Seq<String>)
    ensures
        forall|plugin: Seq<char>| #[trigger]
            missing(needed(), installed).contains(plugin) <==> needed().contains(plugin) && (
            forall|i: int| 0 <= i < installed.len() ==> #[trigger] installed[i]@ != plugin),
        missing(needed(), installed).len() == 0 <==> forall|p: int|
            0 <= p < needed().len() ==> exists|i: int|
                0 <= i < installed.len() && #[trigger] installed[i]@ == #[trigger] needed()[p],
{
    law_missing_plugins(installed);
    assert forall|p: int|
        0 <= p < needed().len() && is_installed(installed, #[trigger] needed()[p]) implies exists|
        i: int,
    |
        0 <= i < installed.len() && #[trigger] installed[i]@ == needed()[p] by {}
    assert forall|p: int|
        0 <= p < needed().len() && (exists|i: int|
            0 <= i < installed.len() && #[trigger] installed[i]@
                == #[trigger] needed()[p]) implies is_installed(installed, needed()[p]) by {}
}

/// The missing plugins are listed in the order in which they are needed, each of them once.
pub proof fn law_missing_plugins_keep_their_order(installed: Seq<String>, a: int, b: int)
    requires
        0 <= a < b < missing(needed(), installed).len(),
    ensures
        exists|i: int, j: int|
            0 <= i < j < needed().len() && #[trigger] needed()[i] == missing(
                needed(),
                installed,
            )[a] && #[trigger] needed()[j] == missing(needed(), installed)[b],
{
    lemma_filter_keeps_order(
        needed(),
        |plugin: Seq<char>| !is_installed(installed, plugin),
        a,
        b,
    );
}

/// What a filter keeps stays in order.
proof fn lemma_filter_keeps_order(
    all: Seq<Seq<char>>,
    keep: spec_fn(Seq<char>) -> bool,
    a: int,
    b: int,
)
    requires
        0 <= a < b < all.filter(keep).len(),
    ensures
        exists|i: int, j: int|
            0 <= i < j < all.len() && #[trigger] all[i] == all.filter(keep)[a] && #[trigger] all[j]
                == all.filter(keep)[b],
    decreases all.len(),
{
    reveal(Seq::filter);
    let kept = all.filter(keep);
    let before = all.drop_last().filter(keep);
    if b < before.len() {
        lemma_filter_keeps_order(all.drop_last(), keep, a, b);
        let (i, j) = choose|i: int, j: int|
            0 <= i < j < all.drop_last().len() && #[trigger] all.drop_last()[i] == before[a]
                && #[trigger] all.drop_last()[j] == before[b];
        assert(all[i] == kept[a] && all[j] == kept[b]);
    } else {
        assert(before.contains(before[a]));
        all.drop_last().lemma_filter_contains_rev(keep, before[a]);
        let i = choose|i: int| 0 <= i < all.drop_last().len() && all.drop_last()[i] == before[a];
        assert(all[i] == kept[a]);
        assert(all[all.len() - 1] == kept[b]);
    }
}

/// The plugins that a client cannot do without.
pub proof fn law_needed_plugins()
    ensures
        needed().len() == 10,
        needed() == seq![
            "opus"@,
            "vpx"@,
            "nice"@,
            "webrtc"@,
            "dtls"@,
            "srtp"@,
            "rtpmanager"@,
            "videotestsrc"@,
            "audiotestsrc"@,
            "pulseaudio"@,
        ],
{
}

} // verus!
