//! Typed entries of a camera's static characteristics, and the choices made
//! from them: which camera to use and which stream configuration to ask for.

use vstd::prelude::*;
use crate::status::CameraError;

verus! {

/// The value of the lens-facing entry for a camera on the display's side.
pub const FACING_FRONT: i32 = 0;

/// The value of the lens-facing entry for a camera on the far side.
pub const FACING_BACK: i32 = 1;

/// The value of the lens-facing entry for a camera that is plugged in.
pub const FACING_EXTERNAL: i32 = 2;

/// The pixel format code of compressed still images, the format that frames
/// are captured in.
pub const FORMAT_JPEG: i32 = 256;

/// The number of integers that describe one supported stream configuration:
/// format, width, height and direction.
pub const ENTRY_STRIDE: usize = 4;

/// Which physical camera to use.
#[derive(Clone, Copy, Debug, PartialEq, Eq, Structural)]
pub enum FacingPolicy {
    Front,
    Back,
    External,
}

impl FacingPolicy {
    /// The value of the lens-facing entry that the policy asks for.
    pub open spec fn facing(self) -> i32 {
        match self {
            FacingPolicy::Front => FACING_FRONT,
            FacingPolicy::Back => FACING_BACK,
            FacingPolicy::External => FACING_EXTERNAL,
        }
    }

    /// Whether a camera whose lens-facing entry holds `facing` is wanted.
    pub fn accepts(self, facing: i32) -> (b: bool)
        ensures
            b == (facing == self.facing()),
    {
        match self {
            FacingPolicy::Front => facing == FACING_FRONT,
            FacingPolicy::Back => facing == FACING_BACK,
            FacingPolicy::External => facing == FACING_EXTERNAL,
        }
    }
}

impl Default for FacingPolicy {
    /// The back-facing camera.
    fn default() -> (p: FacingPolicy)
        ensures
            p == FacingPolicy::Back,
    {
        FacingPolicy::Back
    }
}

/// The capture format negotiated before a session is opened.
#[derive(Clone, Copy, Debug, PartialEq, Eq, Structural)]
pub struct StreamConfiguration {
    pub format: i32,
    pub width: i32,
    pub height: i32,
}

impl StreamConfiguration {
    /// The configuration of the given pixel format and size.
    pub fn new(format: i32, width: i32, height: i32) -> (c: Self)
        ensures
            c == (StreamConfiguration { format, width, height }),
    {
        StreamConfiguration { format, width, height }
    }
}

/// The number of complete stream configurations in the values of the
/// supported-configurations entry. Integers after the last complete one are
/// not read.
pub open spec fn entry_count(values: Seq<i32>) -> int {
    values.len() as int / 4
}

/// The `i`-th stream configuration of the entry.
pub open spec fn entry_at(values: Seq<i32>, i: int) -> StreamConfiguration {
    StreamConfiguration { format: values[4 * i], width: values[4 * i + 1], height: values[4 * i + 2] }
}

/// Whether the `i`-th stream configuration of the entry has pixel format
/// `format`.
pub open spec fn offers(values: Seq<i32>, format: i32, i: int) -> bool {
    0 <= i < entry_count(values) && entry_at(values, i).format == format
}

/// Whether the `i`-th configuration is the one to pick for `format`: it has
/// that format, none of that format is narrower, and those before it are
/// wider.
pub open spec fn is_narrowest(values: Seq<i32>, format: i32, i: int) -> bool {
    &&& offers(values, format, i)
    &&& forall|j: int| #[trigger]
        offers(values, format, j) ==> entry_at(values, i).width <= entry_at(values, j).width
    &&& forall|j: int| #[trigger]
        offers(values, format, j) && j < i ==> entry_at(values, i).width < entry_at(values, j).width
}

/// At most one configuration is the one to pick.
pub proof fn lemma_narrowest_is_unique(values: Seq<i32>, format: i32, i: int, k: int)
    requires
        is_narrowest(values, format, i),
        is_narrowest(values, format, k),
    ensures
        i == k,
{
    if i < k {
        assert(offers(values, format, i));
    } else if k < i {
        assert(offers(values, format, k));
    }
}

/// Which of the n first configurations is the one to pick, if any has the format.
spec fn narrowest_among(values: Seq<i32>, format: i32, n: int, i: int) -> bool {
    &&& offers(values, format, i)
    &&& i < n
    &&& forall|j: int| #[trigger]
        offers(values, format, j) && j < n ==> entry_at(values, i).width <= entry_at(values, j).width
    &&& forall|j: int| #[trigger]
        offers(values, format, j) && j < i ==> entry_at(values, i).width < entry_at(values, j).width
}

/// The configuration to pick for `format` from the values of the
/// supported-configurations entry, or the error when none has the format.
pub open spec fn selected_configuration(values: Seq<i32>, format: i32) -> Result<
    StreamConfiguration,
    CameraError,
> {
    if exists|i: int| is_narrowest(values, format, i) {
        Ok(entry_at(values, choose|i: int| is_narrowest(values, format, i)))
    } else {
        Err(CameraError::UnsupportedConfiguration)
    }
}

/// The configurations of pixel format `format` among the `n` first of the
/// entry, in the order of the entry.
pub open spec fn offered_among(values: Seq<i32>, format: i32, n: int) -> Seq<StreamConfiguration>
    decreases n,
{
    if n <= 0 {
        Seq::empty()
    } else if entry_at(values, n - 1).format == format {
        offered_among(values, format, n - 1).push(entry_at(values, n - 1))
    } else {
        offered_among(values, format, n - 1)
    }
}

/// The configurations of pixel format `format` that the entry holds, in the
/// order of the entry.
pub open spec fn offered(values: Seq<i32>, format: i32) -> Seq<StreamConfiguration> {
    offered_among(values, format, entry_count(values))
}

/// Whether the `k`-th configuration of a list is the one to pick from it:
/// none is narrower, and those before it are wider.
pub open spec fn is_pick(list: Seq<StreamConfiguration>, k: int) -> bool {
    &&& 0 <= k < list.len()
    &&& forall|j: int| 0 <= j < list.len() ==> list[k].width <= (#[trigger] list[j]).width
    &&& forall|j: int| 0 <= j < k ==> list[k].width < (#[trigger] list[j]).width
}

/// The configuration to pick from a list, or the error when it is empty.
pub open spec fn picked(list: Seq<StreamConfiguration>) -> Result<StreamConfiguration, CameraError> {
    if exists|k: int| is_pick(list, k) {
        Ok(list[choose|k: int| is_pick(list, k)])
    } else {
        Err(CameraError::UnsupportedConfiguration)
    }
}

/// The place that the `i`-th configuration of the entry has among those of
/// the format: the number of them before it.
spec fn place(values: Seq<i32>, format: i32, i: int) -> int {
    offered_among(values, format, i).len() as int
}

/// Among more configurations there are no fewer of the format.
proof fn lemma_places_grow(values: Seq<i32>, format: i32, i: int, n: int)
    requires
        0 <= i <= n,
    ensures
        place(values, format, i) <= place(values, format, n),
    decreases n,
{
    if i < n {
        lemma_places_grow(values, format, i, n - 1);
    }
}

/// A configuration of the format stands at its place among those of the format.
proof fn lemma_stands_at_its_place(values: Seq<i32>, format: i32, i: int, n: int)
    requires
        0 <= i < n,
        entry_at(values, i).format == format,
    ensures
        place(values, format, i) < place(values, format, n),
        offered_among(values, format, n)[place(values, format, i)] == entry_at(values, i),
    decreases n,
{
    if i < n - 1 {
        lemma_stands_at_its_place(values, format, i, n - 1);
    }
}

/// Each place among the configurations of the format is that of one of them.
proof fn lemma_place_has_a_source(values: Seq<i32>, format: i32, n: int, k: int) -> (i: int)
    requires
        0 <= k < place(values, format, n),
    ensures
        0 <= i < n,
        entry_at(values, i).format == format,
        place(values, format, i) == k,
    decreases n,
{
    if n <= 0 {
        0
    } else if entry_at(values, n - 1).format == format && k == place(values, format, n - 1) {
        n - 1
    } else {
        lemma_place_has_a_source(values, format, n - 1, k)
    }
}

/// At most one configuration of a list is the one to pick.
proof fn lemma_pick_is_unique(list: Seq<StreamConfiguration>, k: int, m: int)
    requires
        is_pick(list, k),
        is_pick(list, m),
    ensures
        k == m,
{
    if k < m {
        assert(list[m].width < list[k].width);
    } else if m < k {
        assert(list[k].width < list[m].width);
    }
}

/// The configuration to pick from the entry is at its place the one to pick
/// from the configurations of the format.
proof fn lemma_narrowest_is_pick(values: Seq<i32>, format: i32, i: int)
    requires
        is_narrowest(values, format, i),
    ensures
        is_pick(offered(values, format), place(values, format, i)),
        offered(values, format)[place(values, format, i)] == entry_at(values, i),
{
    let count = entry_count(values);
    let list = offered(values, format);
    let k = place(values, format, i);
    assert(offers(values, format, i));
    lemma_stands_at_its_place(values, format, i, count);
    assert forall|j: int| 0 <= j < list.len() implies list[k].width <= (#[trigger] list[j]).width
        && (j < k ==> list[k].width < list[j].width) by {
        let source = lemma_place_has_a_source(values, format, count, j);
        lemma_stands_at_its_place(values, format, source, count);
        assert(offers(values, format, source));
        if j < k && source >= i {
            lemma_places_grow(values, format, i, source);
        }
    }
}

/// The configuration to pick from those of the format is the one to pick
/// from the entry.
proof fn lemma_pick_is_narrowest(values: Seq<i32>, format: i32, k: int) -> (i: int)
    requires
        is_pick(offered(values, format), k),
    ensures
        is_narrowest(values, format, i),
        place(values, format, i) == k,
{
    let count = entry_count(values);
    let list = offered(values, format);
    let i = lemma_place_has_a_source(values, format, count, k);
    lemma_stands_at_its_place(values, format, i, count);
    assert(offers(values, format, i));
    assert forall|j: int| #[trigger] offers(values, format, j) implies entry_at(values, i).width
        <= entry_at(values, j).width && (j < i ==> entry_at(values, i).width < entry_at(
        values,
        j,
    ).width) by {
        lemma_stands_at_its_place(values, format, j, count);
        let at = place(values, format, j);
        assert(list[at] == entry_at(values, j));
        if j < i {
            lemma_stands_at_its_place(values, format, j, i);
        }
    }
    i
}

/// The choice reads the configurations of the format and nothing else: it
/// is the one to pick from their list.
pub proof fn lemma_selection_reads_the_format(values: Seq<i32>, format: i32)
    ensures
        selected_configuration(values, format) == picked(offered(values, format)),
{
    let list = offered(values, format);
    if exists|i: int| is_narrowest(values, format, i) {
        let i = choose|i: int| is_narrowest(values, format, i);
        lemma_narrowest_is_pick(values, format, i);
        let k = place(values, format, i);
        let m = choose|m: int| is_pick(list, m);
        lemma_pick_is_unique(list, k, m);
    } else {
        assert forall|k: int| !is_pick(list, k) by {
            if is_pick(list, k) {
                let i = lemma_pick_is_narrowest(values, format, k);
            }
        }
    }
}

/// Entries of other formats never change the choice: two lists that hold
/// the same configurations of the format in the same order give the same
/// configuration, whatever else they hold and wherever they hold it.
pub proof fn lemma_other_formats_do_not_matter(a: Seq<i32>, b: Seq<i32>, format: i32)
    requires
        offered(a, format) == offered(b, format),
    ensures
        selected_configuration(a, format) == selected_configuration(b, format),
{
    lemma_selection_reads_the_format(a, format);
    lemma_selection_reads_the_format(b, format);
}

/// What is chosen has the format: a configuration of another format is
/// never the choice, however narrow it is.
pub proof fn lemma_choice_has_the_format(values: Seq<i32>, format: i32)
    ensures
        selected_configuration(values, format) matches Ok(c) ==> c.format == format,
{
    if exists|i: int| is_narrowest(values, format, i) {
        let i = choose|i: int| is_narrowest(values, format, i);
        assert(offers(values, format, i));
    }
}

/// The stream configuration to capture in, chosen from the values of the
/// supported-configurations entry: among the configurations in the target
/// format, the one of smallest width, and of those the first. Fails with
/// `UnsupportedConfiguration` exactly when none has the target format.
pub fn select_stream_configuration(values: &[i32]) -> (r: Result<StreamConfiguration, CameraError>)
    ensures
        match r {
            Ok(c) => exists|i: int| is_narrowest(values@, FORMAT_JPEG, i) && c == entry_at(values@, i),
            Err(e) => e == CameraError::UnsupportedConfiguration && forall|i: int|
                !offers(values@, FORMAT_JPEG, i),
        },
        r == selected_configuration(values@, FORMAT_JPEG),
{
    let count: usize = values.len() / ENTRY_STRIDE;
    let mut best: Option<StreamConfiguration> = None;
    let ghost mut best_at: int = 0;
    let mut i: usize = 0;
    while i < count
        invariant
            count == entry_count(values@),
            4 * count <= values@.len() <= usize::MAX,
            i <= count,
            best is None ==> forall|j: int| #[trigger]
                offers(values@, FORMAT_JPEG, j) ==> j >= i,
            best is Some ==> narrowest_among(values@, FORMAT_JPEG, i as int, best_at) && best->0
                == entry_at(values@, best_at),
        decreases count - i,
    {
        let format: i32 = values[4 * i];
        let width: i32 = values[4 * i + 1];
        let height: i32 = values[4 * i + 2];
        if format == FORMAT_JPEG {
            assert(offers(values@, FORMAT_JPEG, i as int));
            let narrower = match best {
                Some(b) => width < b.width,
                None => true,
            };
            if narrower {
                best = Some(StreamConfiguration::new(format, width, height));
                proof {
                    best_at = i as int;
                }
            }
        }
        i = i + 1;
    }
    match best {
        Some(c) => {
            proof {
                assert(is_narrowest(values@, FORMAT_JPEG, best_at));
                let picked = choose|i: int| is_narrowest(values@, FORMAT_JPEG, i);
                lemma_narrowest_is_unique(values@, FORMAT_JPEG, best_at, picked);
            }
            Ok(c)
        },
        None => {
            assert forall|i: int| !is_narrowest(values@, FORMAT_JPEG, i) by {
                if is_narrowest(values@, FORMAT_JPEG, i) {
                    assert(offers(values@, FORMAT_JPEG, i));
                }
            }
            Err(CameraError::UnsupportedConfiguration)
        },
    }
}

/// Whether camera `i` of the list is the one to use: its lens faces the way
/// the policy asks for, and no camera before it does.
pub open spec fn is_first_match(facings: Seq<i32>, policy: FacingPolicy, i: int) -> bool {
    &&& 0 <= i < facings.len()
    &&& facings[i] == policy.facing()
    &&& forall|j: int| 0 <= j < i ==> facings[j] != policy.facing()
}

/// The position of the camera to use, given the lens-facing entry of each
/// camera in the order of the identifier list: the first that the policy
/// accepts. Fails with `NoMatchingCamera` exactly when it accepts none.
pub fn select_camera(facings: &[i32], policy: FacingPolicy) -> (r: Result<usize, CameraError>)
    ensures
        match r {
            Ok(i) => is_first_match(facings@, policy, i as int),
            Err(e) => e == CameraError::NoMatchingCamera && forall|j: int|
                0 <= j < facings@.len() ==> facings@[j] != policy.facing(),
        },
{
    let mut i: usize = 0;
    while i < facings.len()
        invariant
            i <= facings@.len(),
            forall|j: int| 0 <= j < i ==> facings@[j] != policy.facing(),
        decreases facings@.len() - i,
    {
        if policy.accepts(facings[i]) {
            return Ok(i);
        }
        i = i + 1;
    }
    Err(CameraError::NoMatchingCamera)
}

} // verus!
