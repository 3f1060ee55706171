//! The release fetched per run: a tagged bundle of downloadable
//! assets.  Fetching is the caller's work; the selection of the assets
//! a device installs is decided here.

use vstd::prelude::*;

use crate::im;

verus! {

/// One downloadable file named within a release.
pub struct Asset {
    /// The file name the matcher inspects.
    pub name: String,
    /// Where the file is downloaded from.
    pub download_url: String,
}

impl Asset {
    /// An identical copy.
    pub fn duplicate(&self) -> (r: Asset)
        ensures
            r == *self,
    {
        Asset { name: self.name.clone(), download_url: self.download_url.clone() }
    }
}

/// A release: its tag, its changelog text, and its assets in the order
/// the release names them.  It is fetched fresh per run and never
/// persisted; only its version is copied into the device record on
/// success.
pub struct Release {
    /// The tag, compared to the installed version for equality only.
    pub version: String,
    /// Free changelog text, shown to the caller.
    pub intro: String,
    /// The downloadable files, in release order.
    pub assets: Vec<Asset>,
}

/// A release-hosting collaborator reached over HTTP; the caller
/// performs the fetch and builds the `Release` value from the reply.
pub struct GithubRelease {}

/// The assets of `assets` that belong to the engine tagged `im` under
/// sentence-mode `sentence`, in release order.
pub open spec fn spec_matched_assets(assets: Seq<Asset>, im: Seq<char>, sentence: bool) -> Seq<
    Asset,
>
    decreases assets.len(),
{
    if assets.len() == 0 {
        Seq::empty()
    } else {
        let rest = spec_matched_assets(assets.drop_last(), im, sentence);
        if im::spec_check_file_item(assets.last().name@, im, sentence) {
            rest.push(assets.last())
        } else {
            rest
        }
    }
}

/// Selects the assets the engine tagged `im` installs, in release
/// order.
pub fn matched_assets(assets: &Vec<Asset>, im: &str, sentence: bool) -> (r: Vec<Asset>)
    ensures
        r@ == spec_matched_assets(assets@, im@, sentence),
{
    let mut r: Vec<Asset> = Vec::new();
    let mut i: usize = 0;
    proof {
        assert(assets@.take(0) =~= Seq::<Asset>::empty());
    }
    while i < assets.len()
        invariant
            i <= assets@.len(),
            r@ == spec_matched_assets(assets@.take(i as int), im@, sentence),
        decreases assets@.len() - i,
    {
        let ghost pre = assets@.take(i as int);
        if im::check_file_item(assets[i].name.as_str(), im, sentence) {
            r.push(assets[i].duplicate());
        }
        proof {
            assert(assets@.take(i as int + 1).drop_last() =~= pre);
            assert(assets@.take(i as int + 1).last() == assets@[i as int]);
        }
        i += 1;
    }
    proof {
        assert(assets@.take(assets@.len() as int) =~= assets@);
    }
    r
}

/// The position of the first asset whose name begins with `prefix`,
/// if any: how the engine's own installer is found within a release.
pub fn find_asset_with_prefix(assets: &Vec<Asset>, prefix: &str) -> (r: Option<usize>)
    ensures
        match r {
            Some(i) => i < assets@.len() && prefix@.is_prefix_of(assets@[i as int].name@) && forall|
                j: int,
            | 0 <= j < i ==> !prefix@.is_prefix_of(assets@[j].name@),
            None => forall|j: int| 0 <= j < assets@.len() ==> !prefix@.is_prefix_of(
                assets@[j].name@,
            ),
        },
{
    let mut i: usize = 0;
    while i < assets.len()
        invariant
            i <= assets@.len(),
            forall|j: int| 0 <= j < i ==> !prefix@.is_prefix_of(assets@[j].name@),
        decreases assets@.len() - i,
    {
        if crate::text::str_starts_with(assets[i].name.as_str(), prefix) {
            return Some(i);
        }
        i += 1;
    }
    None
}

/// Every selected asset matches, and every matching asset is selected:
/// the selection is the matching subsequence, in order.
pub proof fn law_matched_assets_exact(assets: Seq<Asset>, im: Seq<char>, sentence: bool)
    ensures
        forall|j: int|
            0 <= j < spec_matched_assets(assets, im, sentence).len()
                ==> im::spec_check_file_item(
                (#[trigger] spec_matched_assets(assets, im, sentence)[j]).name@,
                im,
                sentence,
            ),
        forall|i: int|
            0 <= i < assets.len() && im::spec_check_file_item(
                (#[trigger] assets[i]).name@,
                im,
                sentence,
            ) ==> spec_matched_assets(assets, im, sentence).contains(assets[i]),
    decreases assets.len(),
{
    if assets.len() > 0 {
        law_matched_assets_exact(assets.drop_last(), im, sentence);
        let rest = spec_matched_assets(assets.drop_last(), im, sentence);
        let whole = spec_matched_assets(assets, im, sentence);
        assert forall|i: int|
            0 <= i < assets.len() && im::spec_check_file_item(
                (#[trigger] assets[i]).name@,
                im,
                sentence,
            ) implies whole.contains(assets[i]) by {
            if i < assets.len() - 1 {
                assert(assets.drop_last()[i] == assets[i]);
                assert(rest.contains(assets[i]));
                let k = choose|k: int| 0 <= k < rest.len() && rest[k] == assets[i];
                assert(whole[k] == assets[i]);
            } else {
                assert(whole.last() == assets[i]);
            }
        }
    }
}

} // verus!
