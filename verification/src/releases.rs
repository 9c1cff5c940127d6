//! llama.cpp engine releases: which Windows build each asset is, and the
//! download URL chosen for each build kind.
use vstd::prelude::*;
use crate::text::{chars_of, string_of, owned, to_lowercase, lowercase, contains, contains_seq, ends_with, is_suffix_of, is_text};
use crate::json::push_text;

verus! {

/// A release asset as the GitHub API describes it; members that are missing
/// or of the wrong JSON type are `None`.
pub struct RawAsset {
    pub name: Option<String>,
    pub browser_download_url: Option<String>,
    pub size: Option<u64>,
}

/// A release as the GitHub API describes it; members that are missing or of
/// the wrong JSON type are `None` (`assets` also when it is not an array).
pub struct RawRelease {
    pub tag_name: Option<String>,
    pub name: Option<String>,
    pub published_at: Option<String>,
    pub html_url: Option<String>,
    pub body: Option<String>,
    pub assets: Option<Vec<RawAsset>>,
}

/// A Windows build offered by a release.
pub struct LlamaAsset {
    pub name: String,
    pub download_url: String,
    pub size_bytes: u64,
    pub asset_type: String,
}

/// A release with the download URL chosen for each Windows build kind.
pub struct LlamaBuildRelease {
    pub tag_name: String,
    pub release_name: String,
    pub published_at: String,
    pub html_url: String,
    pub body: String,
    pub vulkan_win_url: String,
    pub cpu_win_url: String,
    pub cuda_win_url: String,
    pub cuda_12_4_win_url: String,
    pub cuda_13_3_win_url: String,
    pub hip_win_url: String,
    pub sycl_win_url: String,
    pub assets: Vec<LlamaAsset>,
}

/// The text of an optional string member, empty when missing.
pub open spec fn text_or_empty(s: Option<String>) -> Seq<char> {
    match s {
        Some(t) => t@,
        None => Seq::empty(),
    }
}

/// The kind of Windows build an asset with lower-cased name `lower` is, or
/// `None` when it is not a Windows zip.
pub open spec fn asset_kind(lower: Seq<char>) -> Option<Seq<char>> {
    if !(contains_seq(lower, "win"@) && is_suffix_of(".zip"@, lower)) {
        None
    } else if contains_seq(lower, "vulkan"@) {
        Some("vulkan"@)
    } else if contains_seq(lower, "cpu"@) || contains_seq(lower, "avx2"@) {
        Some("cpu"@)
    } else if contains_seq(lower, "cuda-12.4"@) {
        Some("cuda_12_4"@)
    } else if contains_seq(lower, "cuda-13.3"@) || contains_seq(lower, "cuda-13"@) {
        Some("cuda_13_3"@)
    } else if contains_seq(lower, "hip"@) || contains_seq(lower, "radeon"@) {
        Some("hip_radeon"@)
    } else if contains_seq(lower, "sycl"@) {
        Some("sycl"@)
    } else {
        Some("win_other"@)
    }
}

/// The kind of Windows build an asset named `name` is.
pub fn classify_asset(name: &str) -> (res: Option<String>)
    ensures
        match res {
            Some(k) => asset_kind(lowercase(name@)) == Some(k@),
            None => asset_kind(lowercase(name@)) is None,
        },
{
    let lower = to_lowercase(&chars_of(name));
    if !(contains(&lower, &chars_of("win")) && ends_with(&lower, &chars_of(".zip"))) {
        None
    } else if contains(&lower, &chars_of("vulkan")) {
        Some(owned("vulkan"))
    } else if contains(&lower, &chars_of("cpu")) || contains(&lower, &chars_of("avx2")) {
        Some(owned("cpu"))
    } else if contains(&lower, &chars_of("cuda-12.4")) {
        Some(owned("cuda_12_4"))
    } else if contains(&lower, &chars_of("cuda-13.3")) || contains(&lower, &chars_of("cuda-13")) {
        Some(owned("cuda_13_3"))
    } else if contains(&lower, &chars_of("hip")) || contains(&lower, &chars_of("radeon")) {
        Some(owned("hip_radeon"))
    } else if contains(&lower, &chars_of("sycl")) {
        Some(owned("sycl"))
    } else {
        Some(owned("win_other"))
    }
}

/// The download URL chosen so far for each Windows build kind.
pub struct UrlSlots {
    pub vulkan: Seq<char>,
    pub cpu: Seq<char>,
    pub cuda: Seq<char>,
    pub cuda_12_4: Seq<char>,
    pub cuda_13_3: Seq<char>,
    pub hip: Seq<char>,
    pub sycl: Seq<char>,
}

/// The slots after taking one asset of `kind` at `url` into account: a later
/// asset of a kind replaces an earlier one; the generic CUDA slot takes every
/// CUDA 12.4 build, and a CUDA 13 build only while it is empty.
pub open spec fn take_asset(s: UrlSlots, kind: Option<Seq<char>>, url: Seq<char>) -> UrlSlots {
    match kind {
        None => s,
        Some(k) => if k == "vulkan"@ {
            UrlSlots { vulkan: url, ..s }
        } else if k == "cpu"@ {
            UrlSlots { cpu: url, ..s }
        } else if k == "cuda_12_4"@ {
            UrlSlots { cuda_12_4: url, cuda: url, ..s }
        } else if k == "cuda_13_3"@ {
            UrlSlots { cuda_13_3: url, cuda: if s.cuda.len() == 0 { url } else { s.cuda }, ..s }
        } else if k == "hip_radeon"@ {
            UrlSlots { hip: url, ..s }
        } else if k == "sycl"@ {
            UrlSlots { sycl: url, ..s }
        } else {
            s
        },
    }
}

/// No URL chosen yet.
pub open spec fn empty_slots() -> UrlSlots {
    UrlSlots {
        vulkan: Seq::empty(),
        cpu: Seq::empty(),
        cuda: Seq::empty(),
        cuda_12_4: Seq::empty(),
        cuda_13_3: Seq::empty(),
        hip: Seq::empty(),
        sycl: Seq::empty(),
    }
}

/// The slots after taking all of `assets` into account, in order.
pub open spec fn slots_after(assets: Seq<RawAsset>) -> UrlSlots
    decreases assets.len(),
{
    if assets.len() == 0 {
        empty_slots()
    } else {
        let a = assets.last();
        take_asset(
            slots_after(assets.drop_last()),
            asset_kind(lowercase(text_or_empty(a.name))),
            text_or_empty(a.browser_download_url),
        )
    }
}

/// `listed` describes `raw` as a Windows build of `kind`.
pub open spec fn asset_listed(listed: LlamaAsset, raw: RawAsset, kind: Seq<char>) -> bool {
    &&& listed.name@ == text_or_empty(raw.name)
    &&& listed.download_url@ == text_or_empty(raw.browser_download_url)
    &&& listed.size_bytes == match raw.size {
        Some(n) => n,
        None => 0,
    }
    &&& listed.asset_type@ == kind
}

/// The Windows builds among `assets`, in order: the assets that are Windows
/// zips, each with its kind.
pub open spec fn windows_assets(assets: Seq<RawAsset>) -> Seq<RawAsset>
    decreases assets.len(),
{
    if assets.len() == 0 {
        Seq::empty()
    } else {
        let before = windows_assets(assets.drop_last());
        if asset_kind(lowercase(text_or_empty(assets.last().name))) is Some {
            before.push(assets.last())
        } else {
            before
        }
    }
}

/// `listed` lists exactly the Windows builds among `assets`.
pub open spec fn lists_windows_assets(listed: Seq<LlamaAsset>, assets: Seq<RawAsset>) -> bool {
    let w = windows_assets(assets);
    &&& listed.len() == w.len()
    &&& forall|i: int|
        0 <= i < w.len() ==> asset_listed(
            #[trigger] listed[i],
            w[i],
            asset_kind(lowercase(text_or_empty(w[i].name)))->0,
        )
}

} // verus!

verus! {

/// The assets of a release, none when it has no asset array.
pub open spec fn assets_of(raw: RawRelease) -> Seq<RawAsset> {
    match raw.assets {
        Some(v) => v@,
        None => Seq::empty(),
    }
}

/// The download URL a release of `tag` has for the Windows build `flavor`
/// by GitHub's naming.
pub open spec fn default_win_url(tag: Seq<char>, flavor: Seq<char>) -> Seq<char> {
    "https://github.com/ggml-org/llama.cpp/releases/download/"@ + tag + "/llama-"@ + tag + "-bin-win-"@
        + flavor + "-x64.zip"@
}

/// `url` when one was chosen, else the default.
pub open spec fn or_default(url: Seq<char>, default: Seq<char>) -> Seq<char> {
    if url.len() == 0 { default } else { url }
}

/// `r` is what `raw` becomes: its tag, its name (the tag when it has none),
/// date, page and notes, the URL chosen per Windows build kind (Vulkan and
/// CPU defaulting to GitHub's naming), and its Windows builds.
pub open spec fn release_built(r: LlamaBuildRelease, raw: RawRelease) -> bool {
    let tag = text_or_empty(raw.tag_name);
    let s = slots_after(assets_of(raw));
    &&& r.tag_name@ == tag
    &&& r.release_name@ == match raw.name {
        Some(n) => n@,
        None => tag,
    }
    &&& r.published_at@ == text_or_empty(raw.published_at)
    &&& r.html_url@ == text_or_empty(raw.html_url)
    &&& r.body@ == text_or_empty(raw.body)
    &&& r.vulkan_win_url@ == or_default(s.vulkan, default_win_url(tag, "vulkan"@))
    &&& r.cpu_win_url@ == or_default(s.cpu, default_win_url(tag, "cpu"@))
    &&& r.cuda_win_url@ == s.cuda
    &&& r.cuda_12_4_win_url@ == s.cuda_12_4
    &&& r.cuda_13_3_win_url@ == s.cuda_13_3
    &&& r.hip_win_url@ == s.hip
    &&& r.sycl_win_url@ == s.sycl
    &&& lists_windows_assets(r.assets@, assets_of(raw))
}

fn text_of(s: &Option<String>) -> (res: String)
    ensures
        res@ == text_or_empty(*s),
{
    proof {
        reveal_strlit("");
    }
    match s {
        Some(t) => owned(t.as_str()),
        None => owned(""),
    }
}

/// Exec form of the URL slots.
struct Slots {
    vulkan: String,
    cpu: String,
    cuda: String,
    cuda_12_4: String,
    cuda_13_3: String,
    hip: String,
    sycl: String,
}

impl Slots {
    spec fn view_slots(&self) -> UrlSlots {
        UrlSlots {
            vulkan: self.vulkan@,
            cpu: self.cpu@,
            cuda: self.cuda@,
            cuda_12_4: self.cuda_12_4@,
            cuda_13_3: self.cuda_13_3@,
            hip: self.hip@,
            sycl: self.sycl@,
        }
    }
}

fn default_url(tag: &str, flavor: &str) -> (res: String)
    ensures
        res@ == default_win_url(tag@, flavor@),
{
    let mut out = chars_of("https://github.com/ggml-org/llama.cpp/releases/download/");
    push_text(&mut out, tag);
    push_text(&mut out, "/llama-");
    push_text(&mut out, tag);
    push_text(&mut out, "-bin-win-");
    push_text(&mut out, flavor);
    push_text(&mut out, "-x64.zip");
    string_of(&out)
}

/// Builds the release record for `raw`; `None` for a release without a tag.
pub fn build_release(raw: &RawRelease) -> (res: Option<LlamaBuildRelease>)
    ensures
        match res {
            Some(r) => text_or_empty(raw.tag_name).len() > 0 && release_built(r, *raw),
            None => text_or_empty(raw.tag_name).len() == 0,
        },
{
    proof {
        reveal_strlit("");
    }
    let tag_name = text_of(&raw.tag_name);
    let release_name = match &raw.name {
        Some(n) => owned(n.as_str()),
        None => owned(tag_name.as_str()),
    };
    let mut slots = Slots {
        vulkan: owned(""),
        cpu: owned(""),
        cuda: owned(""),
        cuda_12_4: owned(""),
        cuda_13_3: owned(""),
        hip: owned(""),
        sycl: owned(""),
    };
    let mut listed: Vec<LlamaAsset> = Vec::new();
    let empty: Vec<RawAsset> = Vec::new();
    let assets = match &raw.assets {
        Some(v) => v,
        None => &empty,
    };
    assert(assets@ == assets_of(*raw));
    let n = assets.len();
    assert(assets@.take(0) =~= Seq::<RawAsset>::empty());
    assert(slots.vulkan@ =~= Seq::<char>::empty());
    assert(slots.cpu@ =~= Seq::<char>::empty());
    assert(slots.cuda@ =~= Seq::<char>::empty());
    assert(slots.cuda_12_4@ =~= Seq::<char>::empty());
    assert(slots.cuda_13_3@ =~= Seq::<char>::empty());
    assert(slots.hip@ =~= Seq::<char>::empty());
    assert(slots.sycl@ =~= Seq::<char>::empty());
    assert(slots.view_slots() == empty_slots());
    assert(listed@ =~= Seq::<LlamaAsset>::empty());
    for i in 0..n
        invariant
            n == assets@.len(),
            slots.view_slots() == slots_after(assets@.take(i as int)),
            lists_windows_assets(listed@, assets@.take(i as int)),
    {
        let a = &assets[i];
        let ghost prefix = assets@.take(i as int);
        assert(assets@.take(i + 1).drop_last() == prefix);
        assert(assets@.take(i + 1).last() == *a);
        let name = text_of(&a.name);
        let url = text_of(&a.browser_download_url);
        let kind = classify_asset(name.as_str());
        match kind {
            Some(k) => {
                let ghost before = listed@;
                let ghost w = windows_assets(prefix);
                let ghost kv = k@;
                let is_cuda13 = is_text(&chars_of(k.as_str()), "cuda_13_3");
                if is_text(&chars_of(k.as_str()), "vulkan") {
                    slots.vulkan = owned(url.as_str());
                } else if is_text(&chars_of(k.as_str()), "cpu") {
                    slots.cpu = owned(url.as_str());
                } else if is_text(&chars_of(k.as_str()), "cuda_12_4") {
                    slots.cuda_12_4 = owned(url.as_str());
                    slots.cuda = owned(url.as_str());
                } else if is_cuda13 {
                    slots.cuda_13_3 = owned(url.as_str());
                    if slots.cuda.as_str().is_empty() {
                        slots.cuda = owned(url.as_str());
                    }
                } else if is_text(&chars_of(k.as_str()), "hip_radeon") {
                    slots.hip = owned(url.as_str());
                } else if is_text(&chars_of(k.as_str()), "sycl") {
                    slots.sycl = owned(url.as_str());
                }
                listed.push(
                    LlamaAsset {
                        name: owned(name.as_str()),
                        download_url: owned(url.as_str()),
                        size_bytes: match a.size {
                            Some(s) => s,
                            None => 0,
                        },
                        asset_type: k,
                    },
                );
                assert(windows_assets(assets@.take(i + 1)) == w.push(*a));
                assert forall|j: int| 0 <= j < w.len() + 1 implies asset_listed(
                    #[trigger] listed@[j],
                    w.push(*a)[j],
                    asset_kind(lowercase(text_or_empty(w.push(*a)[j].name)))->0,
                ) by {
                    if j < w.len() {
                        assert(listed@[j] == before[j]);
                        assert(w.push(*a)[j] == w[j]);
                    }
                }
            },
            None => {
                assert(windows_assets(assets@.take(i + 1)) == windows_assets(prefix));
            },
        }
    }
    assert(assets@.take(n as int) == assets@);
    if tag_name.as_str().is_empty() {
        return None;
    }
    let vulkan_win_url = if slots.vulkan.as_str().is_empty() {
        default_url(tag_name.as_str(), "vulkan")
    } else {
        owned(slots.vulkan.as_str())
    };
    let cpu_win_url = if slots.cpu.as_str().is_empty() {
        default_url(tag_name.as_str(), "cpu")
    } else {
        owned(slots.cpu.as_str())
    };
    Some(
        LlamaBuildRelease {
            tag_name,
            release_name,
            published_at: text_of(&raw.published_at),
            html_url: text_of(&raw.html_url),
            body: text_of(&raw.body),
            vulkan_win_url,
            cpu_win_url,
            cuda_win_url: slots.cuda,
            cuda_12_4_win_url: slots.cuda_12_4,
            cuda_13_3_win_url: slots.cuda_13_3,
            hip_win_url: slots.hip,
            sycl_win_url: slots.sycl,
            assets: listed,
        },
    )
}

} // verus!

verus! {

/// The releases of `raws` that have a tag, in order.
pub open spec fn tagged_releases(raws: Seq<RawRelease>) -> Seq<RawRelease>
    decreases raws.len(),
{
    if raws.len() == 0 {
        Seq::empty()
    } else {
        let before = tagged_releases(raws.drop_last());
        if text_or_empty(raws.last().tag_name).len() > 0 {
            before.push(raws.last())
        } else {
            before
        }
    }
}

/// The release records for the GitHub releases `raws`: one per release with
/// a tag, in order.
pub fn release_builds(raws: &Vec<RawRelease>) -> (res: Vec<LlamaBuildRelease>)
    ensures
        res@.len() == tagged_releases(raws@).len(),
        forall|i: int| 0 <= i < res@.len() ==> release_built(#[trigger] res@[i], tagged_releases(raws@)[i]),
{
    let n = raws.len();
    let mut out: Vec<LlamaBuildRelease> = Vec::new();
    assert(raws@.take(0) =~= Seq::<RawRelease>::empty());
    for i in 0..n
        invariant
            n == raws@.len(),
            out@.len() == tagged_releases(raws@.take(i as int)).len(),
            forall|j: int|
                0 <= j < out@.len() ==> release_built(#[trigger] out@[j], tagged_releases(raws@.take(i as int))[j]),
    {
        let ghost t = tagged_releases(raws@.take(i as int));
        assert(raws@.take(i + 1).drop_last() == raws@.take(i as int));
        assert(raws@.take(i + 1).last() == raws@[i as int]);
        let ghost before = out@;
        match build_release(&raws[i]) {
            Some(r) => {
                out.push(r);
                assert(tagged_releases(raws@.take(i + 1)) == t.push(raws@[i as int]));
                assert forall|j: int| 0 <= j < out@.len() implies release_built(
                    #[trigger] out@[j],
                    t.push(raws@[i as int])[j],
                ) by {
                    if j < before.len() {
                        assert(out@[j] == before[j]);
                        assert(t.push(raws@[i as int])[j] == t[j]);
                    }
                }
            },
            None => {},
        }
    }
    assert(raws@.take(n as int) == raws@);
    out
}

/// The newest release: the first of the list, or an error when there is none.
pub fn latest_release(releases: Vec<LlamaBuildRelease>) -> (res: Result<LlamaBuildRelease, String>)
    ensures
        releases@.len() > 0 ==> res == Ok::<LlamaBuildRelease, String>(releases@[0]),
        releases@.len() == 0 ==> (res matches Err(e) && e@ == "No releases found on ggml-org/llama.cpp"@),
{
    let mut releases = releases;
    if releases.len() > 0 {
        Ok(releases.remove(0))
    } else {
        Err(owned("No releases found on ggml-org/llama.cpp"))
    }
}

} // verus!
