//! The debug bakes: a named model in every booth, and a booth's image written to a file.
use vstd::prelude::*;

use crate::portrait::booth::{
    baked_from, spawn_booth_model, BoothBillboardSpec, BoothModel, BoothMotion, BoothPart, BoothRider,
    BoothRig,
};
use crate::portrait::slots::Slot;
use crate::portrait::sync::DEFAULT_YAW;
use crate::single::Single;
use crate::text::chars_of;

verus! {

/// Does the debug bake own the booths?
pub open spec fn settled_mode(cached: Option<bool>, named: bool) -> bool {
    match cached {
        Some(settled) => settled,
        None => named,
    }
}

/// Does the debug bake own the booths? Settled once, by whether a model is named.
pub fn test_mode(cached: &mut Option<bool>, named: bool) -> (r: bool)
    ensures
        r == settled_mode(*old(cached), named),
        *final(cached) == Some(r),
{
    let r = match *cached {
        Some(settled) => settled,
        None => named,
    };
    *cached = Some(r);
    r
}

/// A character of a path as it stands in an address: with the slash turned, and in lower case.
pub open spec fn addressed(c: char) -> char {
    if c == '\\' {
        '/'
    } else if 'A' <= c && c <= 'Z' {
        (c as u32 + 32) as char
    } else {
        c
    }
}

/// The address of a file in the archives.
pub open spec fn archive_url(path: Seq<char>) -> Seq<char> {
    "mpq://"@ + path.map_values(|c: char| addressed(c))
}

fn addressed_char(c: char) -> (r: char)
    ensures
        r == addressed(c),
{
    if c == '\\' {
        '/'
    } else if 'A' <= c && c <= 'Z' {
        ((c as u8) + 32) as char
    } else {
        c
    }
}

/// The address of a skin in the archives.
pub fn skin_url(path: &str) -> (url: String)
    ensures
        url@ == archive_url(path@),
{
    let chars = chars_of(path);
    let mut url = "mpq://".to_string();
    for i in 0..chars.len()
        invariant
            url@ == "mpq://"@ + chars@.take(i as int).map_values(|c: char| addressed(c)),
    {
        url.push(addressed_char(chars[i]));
        assert(chars@.take(i + 1).map_values(|c: char| addressed(c)) =~= chars@.take(
            i as int,
        ).map_values(|c: char| addressed(c)).push(addressed(chars@[i as int])));
    }
    assert(chars@.take(chars@.len() as int) == chars@);
    url
}

/// An address is one way of writing a path: the slashes and the case of its letters do not matter, and
/// neither does writing it out again.
pub proof fn addresses_settle(c: char)
    ensures
        addressed(addressed(c)) == addressed(c),
        addressed(c) != '\\',
        !('A' <= addressed(c) && addressed(c) <= 'Z'),
{
}

/// What the debug bake waits for.
#[derive(Clone, Copy, Debug, PartialEq, Eq, Structural)]
pub struct BakeReady {
    pub model: bool,
    pub studio_light: bool,
    pub pane_light: bool,
}

/// Which light a booth of the debug bake is lit by.
#[derive(Clone, Copy, Debug, PartialEq, Eq, Structural)]
pub enum BakeLight {
    Studio,
    Pane,
}

/// The light that a booth of the debug bake is lit by.
pub open spec fn light_of(slot: Slot) -> BakeLight {
    if slot is PaperDoll {
        BakeLight::Pane
    } else {
        BakeLight::Studio
    }
}

/// A mesh of the named model.
#[derive(Clone, Copy, Debug, PartialEq, Eq, Structural)]
pub struct TestSubmesh {
    pub skinned_mesh: u64,
    pub mesh: u64,
    pub texture: Option<u64>,
    /// Its material under the studio's light, and under the pane's.
    pub studio: u64,
    pub pane: u64,
}

/// The texture of a mesh of the named model: its own, or else the named skin.
pub open spec fn worn(submesh: TestSubmesh, skin: Option<u64>) -> Option<u64> {
    match submesh.texture {
        Some(texture) => Some(texture),
        None => skin,
    }
}

/// The textures that the materials of the named model are made with.
pub fn test_textures(submeshes: &Vec<TestSubmesh>, skin: Option<u64>) -> (textures: Vec<Option<u64>>)
    ensures
        textures@ == submeshes@.map_values(|s: TestSubmesh| worn(s, skin)),
{
    let mut textures: Vec<Option<u64>> = Vec::new();
    for i in 0..submeshes.len()
        invariant
            textures@ == submeshes@.take(i as int).map_values(|s: TestSubmesh| worn(s, skin)),
    {
        textures.push(
            match submeshes[i].texture {
                Some(texture) => Some(texture),
                None => skin,
            },
        );
        assert(textures@ =~= submeshes@.take(i + 1).map_values(|s: TestSubmesh| worn(s, skin)));
    }
    assert(submeshes@.take(submeshes@.len() as int) == submeshes@);
    textures
}

/// A mesh of the named model as it goes into a bake: no batch of it is see-through.
pub open spec fn test_part(submesh: TestSubmesh, light: BakeLight) -> BoothPart {
    BoothPart {
        skinned: Some(submesh.skinned_mesh),
        static_mesh: submesh.mesh,
        material: match light {
            BakeLight::Studio => submesh.studio,
            BakeLight::Pane => submesh.pane,
        },
        alpha: None,
    }
}

fn test_parts(submeshes: &Vec<TestSubmesh>, light: BakeLight) -> (parts: Vec<BoothPart>)
    ensures
        parts@ == submeshes@.map_values(|s: TestSubmesh| test_part(s, light)),
{
    let mut parts: Vec<BoothPart> = Vec::new();
    for i in 0..submeshes.len()
        invariant
            parts@ == submeshes@.take(i as int).map_values(|s: TestSubmesh| test_part(s, light)),
    {
        let submesh = submeshes[i];
        parts.push(
            BoothPart {
                skinned: Some(submesh.skinned_mesh),
                static_mesh: submesh.mesh,
                material: match light {
                    BakeLight::Studio => submesh.studio,
                    BakeLight::Pane => submesh.pane,
                },
                alpha: None,
            },
        );
        assert(parts@ =~= submeshes@.take(i + 1).map_values(
            |s: TestSubmesh| test_part(s, light),
        ));
    }
    assert(submeshes@.take(submeshes@.len() as int) == submeshes@);
    parts
}

/// A booth that there is, with the rig that was made for the named model in it.
pub struct TestBooth {
    pub slot: Slot,
    pub rig: Option<BoothRig>,
}

/// The named model in a booth.
pub struct TestBake {
    pub slot: Slot,
    pub light: BakeLight,
    pub model: BoothModel,
    /// The yaw that its root is turned to, in the body pane.
    pub yaw: Option<Single>,
}

/// A booth was filled with the named model: under its own light, as a still with nothing on it and its
/// hands open, and in the body pane turned to a three-quarter view.
pub open spec fn bakes(bake: TestBake, booth: TestBooth, submeshes: Seq<TestSubmesh>) -> bool {
    &&& bake.slot == booth.slot
    &&& bake.light == light_of(booth.slot)
    &&& bake.yaw == (if booth.slot is PaperDoll {
        Some(Single::from_bits(DEFAULT_YAW))
    } else {
        None
    })
    &&& baked_from(
        bake.model,
        submeshes.map_values(|s: TestSubmesh| test_part(s, light_of(booth.slot))),
        Seq::<BoothRider>::empty(),
        booth.rig,
        BoothMotion::Frozen,
        false,
        false,
        Seq::<BoothBillboardSpec>::empty(),
    )
}

/// Fill every booth that there is with the named model.
pub fn bake_test(submeshes: &Vec<TestSubmesh>, booths: &Vec<TestBooth>) -> (baked: Vec<TestBake>)
    ensures
        baked@.len() == booths@.len(),
        forall|i: int|
            0 <= i < booths@.len() ==> bakes(#[trigger] baked@[i], booths@[i], submeshes@),
{
    let studio = test_parts(submeshes, BakeLight::Studio);
    let pane = test_parts(submeshes, BakeLight::Pane);
    let no_riders: Vec<BoothRider> = Vec::new();
    let no_cards: Vec<BoothBillboardSpec> = Vec::new();
    let mut baked: Vec<TestBake> = Vec::new();
    for i in 0..booths.len()
        invariant
            studio@ == submeshes@.map_values(
                |s: TestSubmesh| test_part(s, BakeLight::Studio),
            ),
            pane@ == submeshes@.map_values(|s: TestSubmesh| test_part(s, BakeLight::Pane)),
            no_riders@ == Seq::<BoothRider>::empty(),
            no_cards@ == Seq::<BoothBillboardSpec>::empty(),
            baked@.len() == i,
            forall|k: int| 0 <= k < i ==> bakes(#[trigger] baked@[k], booths@[k], submeshes@),
    {
        let body = matches!(booths[i].slot, Slot::PaperDoll);
        let model = spawn_booth_model(
            if body {
                &pane
            } else {
                &studio
            },
            &no_riders,
            &booths[i].rig,
            BoothMotion::Frozen,
            false,
            false,
            &no_cards,
        );
        baked.push(
            TestBake {
                slot: booths[i].slot,
                light: if body {
                    BakeLight::Pane
                } else {
                    BakeLight::Studio
                },
                model,
                yaw: if body {
                    Some(Single::from_bits(DEFAULT_YAW))
                } else {
                    None
                },
            },
        );
    }
    baked
}

/// The debug bake runs this frame: it was asked for, it has not run, and the model and both lights are
/// there.
pub open spec fn bake_due(test: bool, done: bool, ready: BakeReady) -> bool {
    test && !done && ready.model && ready.studio_light && ready.pane_light
}

/// The debug bake, once; `done` says that it has been.
pub fn sync_test_portraits(
    test: bool,
    ready: BakeReady,
    done: &mut bool,
    submeshes: &Vec<TestSubmesh>,
    booths: &Vec<TestBooth>,
) -> (baked: Option<Vec<TestBake>>)
    ensures
        *final(done) == (*old(done) || bake_due(test, *old(done), ready)),
        baked is Some <==> bake_due(test, *old(done), ready),
        baked matches Some(b) ==> b@.len() == booths@.len() && forall|i: int|
            0 <= i < booths@.len() ==> bakes(#[trigger] b@[i], booths@[i], submeshes@),
{
    if !test || *done || !ready.model || !ready.studio_light || !ready.pane_light {
        return None;
    }
    *done = true;
    Some(bake_test(submeshes, booths))
}

/// The debug bake runs at most once: after it nothing is due, whatever there is.
pub proof fn a_debug_bake_runs_once(test: bool, done: bool, ready: BakeReady, later: BakeReady)
    ensures
        bake_due(test, done, ready) ==> !bake_due(test, done || bake_due(test, done, ready), later),
        done ==> !bake_due(test, done, ready),
        !test ==> !bake_due(test, done, ready),
{
}

/// A wish for a booth's image: whose, where to, and after how many seconds, still as text.
pub struct DumpSpec {
    pub token: String,
    pub path: String,
    pub secs: String,
}

/// The place of the first colon at or after `from`, or the length.
pub open spec fn colon(text: Seq<char>, from: int) -> int
    decreases text.len() - from,
{
    if from >= text.len() {
        text.len() as int
    } else if text[from] == ':' {
        from
    } else {
        colon(text, from + 1)
    }
}

proof fn a_colon_is_found(text: Seq<char>, from: int)
    requires
        0 <= from <= text.len(),
    ensures
        from <= colon(text, from) <= text.len(),
        colon(text, from) < text.len() ==> text[colon(text, from)] == ':',
        forall|i: int| from <= i < colon(text, from) ==> #[trigger] text[i] != ':',
    decreases text.len() - from,
{
    if from < text.len() && text[from] != ':' {
        a_colon_is_found(text, from + 1);
    }
}

fn find_colon(chars: &Vec<char>, from: usize) -> (at: usize)
    requires
        from <= chars.len(),
    ensures
        at == colon(chars@, from as int),
        from <= at <= chars.len(),
{
    let mut at: usize = from;
    while at < chars.len() && chars[at] != ':'
        invariant
            from <= at <= chars.len(),
            colon(chars@, from as int) == colon(chars@, at as int),
        decreases chars.len() - at,
    {
        at = at + 1;
    }
    at
}

fn text_between(chars: &Vec<char>, from: usize, to: usize) -> (text: String)
    requires
        from <= to <= chars.len(),
    ensures
        text@ == chars@.subrange(from as int, to as int),
{
    let mut text: String = String::new();
    for i in from..to
        invariant
            to <= chars.len(),
            from <= i <= to,
            text@ == chars@.subrange(from as int, i as int),
    {
        text.push(chars[i]);
        assert(chars@.subrange(from as int, i + 1) == chars@.subrange(from as int, i as int).push(
            chars@[i as int],
        ));
    }
    text
}

/// A wish for a booth's image is what a text says.
pub open spec fn is_wish(spec: Option<DumpSpec>, text: Seq<char>) -> bool {
    let first = colon(text, 0);
    let second = colon(text, first + 1);
    &&& spec is Some <==> first < text.len() && second < text.len()
    &&& spec matches Some(s) ==> {
        &&& s.token@ == text.subrange(0, first)
        &&& s.path@ == text.subrange(first + 1, second)
        &&& s.secs@ == text.subrange(second + 1, text.len() as int)
    }
}

/// Read a wish for a booth's image, `token:path:secs`; the first two colons divide it, and without two
/// there is none.
pub fn parse_dump(text: &str) -> (spec: Option<DumpSpec>)
    ensures
        is_wish(spec, text@),
{
    let chars = chars_of(text);
    let first: usize = find_colon(&chars, 0);
    if first >= chars.len() {
        return None;
    }
    let second: usize = find_colon(&chars, first + 1);
    if second >= chars.len() {
        return None;
    }
    Some(
        DumpSpec {
            token: text_between(&chars, 0, first),
            path: text_between(&chars, first + 1, second),
            secs: text_between(&chars, second + 1, chars.len()),
        },
    )
}

/// A wish that was read says what was written, and neither a token nor a path has a colon in it.
pub proof fn a_wish_reads_back(text: Seq<char>)
    requires
        colon(text, 0) < text.len(),
        colon(text, colon(text, 0) + 1) < text.len(),
    ensures
        ({
            let first = colon(text, 0);
            let second = colon(text, first + 1);
            let token = text.subrange(0, first);
            let path = text.subrange(first + 1, second);
            let secs = text.subrange(second + 1, text.len() as int);
            &&& text == token + seq![':'] + path + seq![':'] + secs
            &&& !token.contains(':')
            &&& !path.contains(':')
        }),
{
    let first = colon(text, 0);
    a_colon_is_found(text, 0);
    a_colon_is_found(text, first + 1);
    let second = colon(text, first + 1);
    let token = text.subrange(0, first);
    let path = text.subrange(first + 1, second);
    let secs = text.subrange(second + 1, text.len() as int);
    assert(text == token + seq![':'] + path + seq![':'] + secs);
    assert forall|i: int| 0 <= i < path.len() implies path[i] != ':' by {
        assert(path[i] == text[first + 1 + i]);
    }
}

/// Is it time to write a booth's image?
pub open spec fn is_dump_due(fired: bool, elapsed: Single, secs: Single) -> bool {
    !fired && !elapsed.below(secs)
}

/// Is it time to write a booth's image? Once, as soon as the seconds have passed.
pub fn dump_due(fired: &mut bool, elapsed: Single, secs: Single) -> (due: bool)
    ensures
        due == is_dump_due(*old(fired), elapsed, secs),
        *final(fired) == (*old(fired) || due),
{
    if *fired || elapsed.is_below(secs) {
        return false;
    }
    *fired = true;
    true
}

/// Whether the debug bake owns the booths stays as it was first settled, whatever is named later.
pub proof fn a_mode_stays_settled(named: bool, later: bool, settled: bool)
    ensures
        settled_mode(None, named) == named,
        settled_mode(Some(settled), later) == settled,
        settled_mode(Some(settled_mode(None, named)), later) == named,
{
}

/// The address of a file begins with that of the archives; behind it stands the path, character for
/// character: slashes turned, capitals made small, and the rest as it is.
pub proof fn an_address_spells_its_path(path: Seq<char>, i: int)
    requires
        0 <= i < path.len(),
    ensures
        ({
            let url = archive_url(path);
            let c = path[i];
            &&& url.len() == 6 + path.len()
            &&& url.take(6) == "mpq://"@
            &&& c == '\\' ==> url[6 + i] == '/'
            &&& 'A' <= c && c <= 'Z' ==> url[6 + i] as int == c as int + 32
            &&& c != '\\' && !('A' <= c && c <= 'Z') ==> url[6 + i] == c
        }),
{
    reveal_strlit("mpq://");
    assert("mpq://"@.len() == 6);
    assert(archive_url(path).take(6) =~= "mpq://"@);
}

/// The body pane is lit by its own light, and every portrait by the studio's.
pub proof fn portraits_are_lit_by_the_studio(slot: Slot)
    ensures
        slot == Slot::PaperDoll ==> light_of(slot) == BakeLight::Pane,
        slot != Slot::PaperDoll ==> light_of(slot) == BakeLight::Studio,
{
}

/// A mesh of the named model keeps the texture that it has, and wears the named skin where it has none.
/// It goes into a bake with its own meshes and with the material for the light, and as opaque.
pub proof fn meshes_go_in_as_they_are(s: TestSubmesh, skin: Option<u64>)
    ensures
        s.texture is Some ==> worn(s, skin) == s.texture,
        s.texture is None ==> worn(s, skin) == skin,
        test_part(s, BakeLight::Studio).material == s.studio,
        test_part(s, BakeLight::Pane).material == s.pane,
        forall|light: BakeLight|
            (#[trigger] test_part(s, light)).skinned == Some(s.skinned_mesh) && test_part(
                s,
                light,
            ).static_mesh == s.mesh && test_part(s, light).alpha is None,
{
}

/// A booth is filled with every mesh of the named model, under its own light; only the body pane is
/// turned, to its three-quarter view; it stands still, holds nothing, and bears neither rider nor card.
pub proof fn a_booth_is_filled_with_the_model(
    bake: TestBake,
    booth: TestBooth,
    submeshes: Seq<TestSubmesh>,
    i: int,
)
    requires
        bakes(bake, booth, submeshes),
        0 <= i < submeshes.len(),
    ensures
        bake.slot == booth.slot,
        booth.slot == Slot::PaperDoll ==> bake.light == BakeLight::Pane && bake.yaw == Some(
            Single::from_bits(0x3f1c_28f6),
        ),
        booth.slot != Slot::PaperDoll ==> bake.light == BakeLight::Studio && bake.yaw is None,
        bake.model.parts@.len() == submeshes.len(),
        booth.slot == Slot::PaperDoll ==> bake.model.parts@[i].material == submeshes[i].pane,
        booth.slot != Slot::PaperDoll ==> bake.model.parts@[i].material == submeshes[i].studio,
        bake.model.riders@.len() == 0 && bake.model.billboards@.len() == 0,
        bake.model.pose matches Some(pose) ==> !pose.looping && pose.grips@.len() == 0,
{
    assert(Seq::<BoothRider>::empty().map_values(|r: BoothRider| r.bone).len() == 0);
    assert(Seq::<BoothBillboardSpec>::empty().map_values(|b: BoothBillboardSpec| b.bone).len() == 0);
}

/// The debug bake is due when it was asked for and has not run, with the model and both lights there,
/// and not while any of these is missing.
pub proof fn a_debug_bake_waits_for_its_lights(ready: BakeReady)
    ensures
        bake_due(true, false, ready) <==> ready.model && ready.studio_light && ready.pane_light,
{
}

/// A wish is read as it was written: a token and a path, neither with a colon in it, and the seconds,
/// with a colon between each two. A text with fewer colons is none.
pub proof fn a_wish_is_read_as_written(
    spec: Option<DumpSpec>,
    token: Seq<char>,
    path: Seq<char>,
    secs: Seq<char>,
)
    requires
        !token.contains(':'),
        !path.contains(':'),
    ensures
        is_wish(spec, token + seq![':'] + path + seq![':'] + secs) ==> (spec matches Some(s)
            && s.token@ == token && s.path@ == path && s.secs@ == secs),
        is_wish(spec, token + seq![':'] + path) ==> spec is None,
        is_wish(spec, token) ==> spec is None,
{
    let n = token.len() as int;
    let m = n + 1 + path.len();
    let whole = token + seq![':'] + path + seq![':'] + secs;
    a_colon_is_where_it_stands(whole, 0, n);
    a_colon_is_where_it_stands(whole, n + 1, m);
    assert(whole.subrange(0, n) =~= token);
    assert(whole.subrange(n + 1, m) =~= path);
    assert(whole.subrange(m + 1, whole.len() as int) =~= secs);
    let half = token + seq![':'] + path;
    a_colon_is_where_it_stands(half, 0, n);
    a_colon_is_where_it_stands(half, n + 1, m);
    a_colon_is_where_it_stands(token, 0, n);
}

proof fn a_colon_is_where_it_stands(text: Seq<char>, from: int, at: int)
    requires
        0 <= from <= at <= text.len(),
        at < text.len() ==> text[at] == ':',
        forall|i: int| from <= i < at ==> #[trigger] text[i] != ':',
    ensures
        colon(text, from) == at,
    decreases at - from,
{
    if from < at {
        a_colon_is_where_it_stands(text, from + 1, at);
    }
}

/// A booth's image is written once, when its seconds have passed and not before.
pub proof fn an_image_is_written_in_time(elapsed: Single, secs: Single)
    ensures
        !is_dump_due(true, elapsed, secs),
        elapsed.below(secs) ==> !is_dump_due(false, elapsed, secs),
        secs.at_most(elapsed) ==> is_dump_due(false, elapsed, secs),
{
}

} // verus!
