use vstd::prelude::*;

verus! {

/// `VkPhysicalDeviceType` value of an integrated GPU.
pub const PHYSICAL_DEVICE_TYPE_INTEGRATED_GPU: u32 = 1;

/// `VkPhysicalDeviceType` value of a discrete GPU.
pub const PHYSICAL_DEVICE_TYPE_DISCRETE_GPU: u32 = 2;

/// `VkQueueFlagBits` bit of queues that support graphics.
pub const QUEUE_GRAPHICS_BIT: u32 = 0x1;

/// `VkQueueFlagBits` bit of queues that support compute.
pub const QUEUE_COMPUTE_BIT: u32 = 0x2;

/// `VkFormat` value of `B8G8R8A8_UNORM`, the surface format the renderer needs.
pub const FORMAT_B8G8R8A8_UNORM: u32 = 44;

/// `VkColorSpaceKHR` value of the sRGB non-linear colour space.
pub const COLOR_SPACE_SRGB_NONLINEAR: u32 = 0;

/// `VkPresentModeKHR` value of mailbox presentation.
pub const PRESENT_MODE_MAILBOX: u32 = 1;

/// `VkDebugUtilsMessageSeverityFlagBitsEXT` bit of warnings.
pub const MESSAGE_SEVERITY_WARNING_BIT: u32 = 0x100;

/// `VkDebugUtilsMessageSeverityFlagBitsEXT` bit of errors.
pub const MESSAGE_SEVERITY_ERROR_BIT: u32 = 0x1000;

/// A device type the renderer accepts: an integrated or a discrete GPU.
pub open spec fn is_gpu(device_type: u32) -> bool {
    device_type == PHYSICAL_DEVICE_TYPE_INTEGRATED_GPU || device_type
        == PHYSICAL_DEVICE_TYPE_DISCRETE_GPU
}

/// Picks the first physical device that is a GPU, from the types of the
/// devices in enumeration order; `None` when there is none.
pub fn pick_physical_device(device_types: &[u32]) -> (r: Option<usize>)
    ensures
        match r {
            Some(i) => i < device_types@.len() && is_gpu(device_types@[i as int]) && forall|k: int|
                0 <= k < i ==> !is_gpu(#[trigger] device_types@[k]),
            None => forall|k: int| 0 <= k < device_types@.len() ==> !is_gpu(#[trigger] device_types@[k]),
        },
{
    let mut i: usize = 0;
    while i < device_types.len()
        invariant
            i <= device_types@.len(),
            forall|k: int| 0 <= k < i ==> !is_gpu(#[trigger] device_types@[k]),
        decreases device_types@.len() - i,
    {
        let t = device_types[i];
        if t == PHYSICAL_DEVICE_TYPE_DISCRETE_GPU || t == PHYSICAL_DEVICE_TYPE_INTEGRATED_GPU {
            return Some(i);
        }
        i = i + 1;
    }
    None
}

/// A queue family the renderer can use: it can present to the surface and
/// its flags hold both the graphics and the compute bit.
pub open spec fn is_usable_queue_family(presents: bool, queue_flags: u32) -> bool {
    presents && queue_flags & QUEUE_GRAPHICS_BIT == QUEUE_GRAPHICS_BIT && queue_flags
        & QUEUE_COMPUTE_BIT == QUEUE_COMPUTE_BIT
}

/// Picks the first usable queue family, given for each family whether it can
/// present to the surface and its queue flags; one must exist.
pub fn pick_queue_family(families: &[(bool, u32)]) -> (r: u32)
    requires
        families@.len() <= u32::MAX,
        exists|k: int|
            0 <= k < families@.len() && is_usable_queue_family(
                #[trigger] families@[k].0,
                families@[k].1,
            ),
    ensures
        r < families@.len(),
        is_usable_queue_family(families@[r as int].0, families@[r as int].1),
        forall|k: int|
            0 <= k < r ==> !is_usable_queue_family(#[trigger] families@[k].0, families@[k].1),
{
    let mut i: usize = 0;
    while i < families.len()
        invariant
            i <= families@.len(),
            families@.len() <= u32::MAX,
            forall|k: int|
                0 <= k < i ==> !is_usable_queue_family(#[trigger] families@[k].0, families@[k].1),
        decreases families@.len() - i,
    {
        let (presents, flags) = families[i];
        if presents && flags & QUEUE_GRAPHICS_BIT == QUEUE_GRAPHICS_BIT && flags & QUEUE_COMPUTE_BIT
            == QUEUE_COMPUTE_BIT {
            return i as u32;
        }
        i = i + 1;
    }
    proof {
        let k = choose|k: int|
            0 <= k < families@.len() && is_usable_queue_family(
                #[trigger] families@[k].0,
                families@[k].1,
            );
        assert(!is_usable_queue_family(families@[k].0, families@[k].1));
    }
    0
}

/// Whether memory type `i` fits: bit `i` of the allowed types is set and its
/// property flags hold every required flag.
pub open spec fn is_suitable_memory_type(
    memory_type_bits: u32,
    property_flags: Seq<u32>,
    required: u32,
    i: int,
) -> bool {
    &&& 0 <= i < property_flags.len()
    &&& (memory_type_bits >> (i as u32)) & 1 == 1
    &&& property_flags[i] & required == required
}

/// Finds the first suitable memory type, given the allowed-type bits, the
/// property flags of each memory type (at most 32) and the required flags;
/// one must exist.
pub fn find_memory_type_index(memory_type_bits: u32, property_flags: &[u32], required: u32) -> (r:
    u32)
    requires
        property_flags@.len() <= 32,
        exists|k: int| #[trigger]
            is_suitable_memory_type(memory_type_bits, property_flags@, required, k),
    ensures
        is_suitable_memory_type(memory_type_bits, property_flags@, required, r as int),
        forall|k: int|
            0 <= k < r ==> !#[trigger] is_suitable_memory_type(
                memory_type_bits,
                property_flags@,
                required,
                k,
            ),
{
    let mut i: u32 = 0;
    while (i as usize) < property_flags.len()
        invariant
            property_flags@.len() <= 32,
            i <= property_flags@.len(),
            forall|k: int|
                0 <= k < i ==> !#[trigger] is_suitable_memory_type(
                    memory_type_bits,
                    property_flags@,
                    required,
                    k,
                ),
        decreases property_flags@.len() - i,
    {
        let bit = 1u32 << i;
        let allowed = memory_type_bits & bit != 0;
        assert(allowed == ((memory_type_bits >> i) & 1 == 1)) by (bit_vector)
            requires
                i < 32,
                bit == 1u32 << i,
                allowed == (memory_type_bits & bit != 0),
        ;
        if allowed && property_flags[i as usize] & required == required {
            return i;
        }
        i = i + 1;
    }
    proof {
        let k = choose|k: int| #[trigger]
            is_suitable_memory_type(memory_type_bits, property_flags@, required, k);
        assert(!is_suitable_memory_type(memory_type_bits, property_flags@, required, k));
    }
    0
}

/// `value` brought into `[min, max]`.
pub open spec fn clamped(value: u32, min: u32, max: u32) -> u32 {
    if value < min {
        min
    } else if value > max {
        max
    } else {
        value
    }
}

/// Clamping lands inside the range, keeps a value already in it, sends a
/// value below it to its low end and one above it to its high end, and
/// keeps the order of any two values.
pub proof fn lemma_clamped(value: u32, other: u32, min: u32, max: u32)
    requires
        min <= max,
    ensures
        min <= clamped(value, min, max) <= max,
        min <= value <= max ==> clamped(value, min, max) == value,
        value < min ==> clamped(value, min, max) == min,
        value > max ==> clamped(value, min, max) == max,
        value <= other ==> clamped(value, min, max) <= clamped(other, min, max),
{
}

/// The swapchain extent: the framebuffer size (each side reinterpreted as an
/// unsigned 32-bit number) clamped to the surface's extent limits.
pub fn swapchain_extent(
    framebuffer_width: i32,
    framebuffer_height: i32,
    min_extent: (u32, u32),
    max_extent: (u32, u32),
) -> (r: (u32, u32))
    requires
        min_extent.0 <= max_extent.0,
        min_extent.1 <= max_extent.1,
    ensures
        r.0 == clamped(framebuffer_width as u32, min_extent.0, max_extent.0),
        r.1 == clamped(framebuffer_height as u32, min_extent.1, max_extent.1),
{
    let w = framebuffer_width as u32;
    let h = framebuffer_height as u32;
    let width = if w < min_extent.0 {
        min_extent.0
    } else if w > max_extent.0 {
        max_extent.0
    } else {
        w
    };
    let height = if h < min_extent.1 {
        min_extent.1
    } else if h > max_extent.1 {
        max_extent.1
    } else {
        h
    };
    (width, height)
}

/// Whether a surface can carry the renderer's swapchain: it offers the
/// `B8G8R8A8_UNORM` format in the sRGB non-linear colour space, it offers
/// mailbox presentation, and it puts no limit on the image count (0).
pub open spec fn is_swapchain_supported(
    formats: Seq<(u32, u32)>,
    present_modes: Seq<u32>,
    max_image_count: u32,
) -> bool {
    &&& exists|k: int|
        0 <= k < formats.len() && #[trigger] formats[k] == (
            FORMAT_B8G8R8A8_UNORM,
            COLOR_SPACE_SRGB_NONLINEAR,
        )
    &&& exists|k: int| 0 <= k < present_modes.len() && #[trigger] present_modes[k] == PRESENT_MODE_MAILBOX
    &&& max_image_count == 0
}

/// A surface that offers the required format (`B8G8R8A8_UNORM` in sRGB
/// non-linear) at any position of its format list, mailbox presentation at
/// any position of its mode list, and no image-count limit is accepted.
pub proof fn lemma_swapchain_supported_at(
    formats: Seq<(u32, u32)>,
    present_modes: Seq<u32>,
    k: int,
    j: int,
)
    requires
        0 <= k < formats.len(),
        formats[k].0 == FORMAT_B8G8R8A8_UNORM,
        formats[k].1 == COLOR_SPACE_SRGB_NONLINEAR,
        0 <= j < present_modes.len(),
        present_modes[j] == PRESENT_MODE_MAILBOX,
    ensures
        is_swapchain_supported(formats, present_modes, 0),
{
    assert(formats[k] == (FORMAT_B8G8R8A8_UNORM, COLOR_SPACE_SRGB_NONLINEAR));
}

/// A surface is refused when no offered format is the required one, when no
/// offered mode is mailbox, or when it limits the image count.
pub proof fn lemma_swapchain_refused(
    formats: Seq<(u32, u32)>,
    present_modes: Seq<u32>,
    max_image_count: u32,
)
    ensures
        (forall|k: int|
            0 <= k < formats.len() ==> #[trigger] formats[k] != (
                FORMAT_B8G8R8A8_UNORM,
                COLOR_SPACE_SRGB_NONLINEAR,
            )) ==> !is_swapchain_supported(formats, present_modes, max_image_count),
        (forall|j: int| 0 <= j < present_modes.len() ==> #[trigger] present_modes[j]
            != PRESENT_MODE_MAILBOX) ==> !is_swapchain_supported(
            formats,
            present_modes,
            max_image_count,
        ),
        max_image_count != 0 ==> !is_swapchain_supported(formats, present_modes, max_image_count),
{
}

/// Offering more formats or present modes, before or after the ones already
/// offered, never turns an accepted surface into a refused one.
pub proof fn lemma_swapchain_supported_extend(
    formats: Seq<(u32, u32)>,
    more_formats: Seq<(u32, u32)>,
    present_modes: Seq<u32>,
    more_modes: Seq<u32>,
    max_image_count: u32,
)
    requires
        is_swapchain_supported(formats, present_modes, max_image_count),
    ensures
        is_swapchain_supported(formats + more_formats, present_modes + more_modes, max_image_count),
        is_swapchain_supported(more_formats + formats, more_modes + present_modes, max_image_count),
{
    let k = choose|k: int|
        0 <= k < formats.len() && #[trigger] formats[k] == (
            FORMAT_B8G8R8A8_UNORM,
            COLOR_SPACE_SRGB_NONLINEAR,
        );
    let j = choose|j: int| 0 <= j < present_modes.len() && #[trigger] present_modes[j] == PRESENT_MODE_MAILBOX;
    assert((formats + more_formats)[k] == formats[k]);
    assert((present_modes + more_modes)[j] == present_modes[j]);
    assert((more_formats + formats)[more_formats.len() + k] == formats[k]);
    assert((more_modes + present_modes)[more_modes.len() + j] == present_modes[j]);
}

/// The verdict depends only on which formats and modes are offered, not on
/// their order or repetition.
pub proof fn lemma_swapchain_supported_order(
    formats: Seq<(u32, u32)>,
    other_formats: Seq<(u32, u32)>,
    present_modes: Seq<u32>,
    other_modes: Seq<u32>,
    max_image_count: u32,
)
    requires
        formats.to_set() == other_formats.to_set(),
        present_modes.to_set() == other_modes.to_set(),
    ensures
        is_swapchain_supported(formats, present_modes, max_image_count) == is_swapchain_supported(
            other_formats,
            other_modes,
            max_image_count,
        ),
{
    let required = (FORMAT_B8G8R8A8_UNORM, COLOR_SPACE_SRGB_NONLINEAR);
    assert(formats.to_set().contains(required) <==> formats.contains(required));
    assert(other_formats.to_set().contains(required) <==> other_formats.contains(required));
    assert(present_modes.to_set().contains(PRESENT_MODE_MAILBOX) <==> present_modes.contains(
        PRESENT_MODE_MAILBOX,
    ));
    assert(other_modes.to_set().contains(PRESENT_MODE_MAILBOX) <==> other_modes.contains(
        PRESENT_MODE_MAILBOX,
    ));
}

/// Checks a surface's formats (format, colour space), present modes and
/// image-count limit against what the renderer needs.
pub fn swapchain_supported(formats: &[(u32, u32)], present_modes: &[u32], max_image_count: u32) -> (r:
    bool)
    ensures
        r == is_swapchain_supported(formats@, present_modes@, max_image_count),
{
    let mut has_format = false;
    let mut i: usize = 0;
    while i < formats.len()
        invariant
            i <= formats@.len(),
            has_format == exists|k: int|
                0 <= k < i && #[trigger] formats@[k] == (
                    FORMAT_B8G8R8A8_UNORM,
                    COLOR_SPACE_SRGB_NONLINEAR,
                ),
        decreases formats@.len() - i,
    {
        let (f, c) = formats[i];
        if f == FORMAT_B8G8R8A8_UNORM && c == COLOR_SPACE_SRGB_NONLINEAR {
            has_format = true;
        }
        i = i + 1;
    }
    let mut has_mode = false;
    let mut j: usize = 0;
    while j < present_modes.len()
        invariant
            j <= present_modes@.len(),
            has_mode == exists|k: int| 0 <= k < j && #[trigger] present_modes@[k] == PRESENT_MODE_MAILBOX,
        decreases present_modes@.len() - j,
    {
        if present_modes[j] == PRESENT_MODE_MAILBOX {
            has_mode = true;
        }
        j = j + 1;
    }
    has_format && has_mode && max_image_count == 0
}

fn same_bytes(a: &Vec<u8>, b: &Vec<u8>) -> (r: bool)
    ensures
        r == (a@ == b@),
{
    if a.len() != b.len() {
        return false;
    }
    let mut i: usize = 0;
    while i < a.len()
        invariant
            i <= a@.len(),
            a@.len() == b@.len(),
            forall|k: int| 0 <= k < i ==> a@[k] == b@[k],
        decreases a@.len() - i,
    {
        if a[i] != b[i] {
            return false;
        }
        i = i + 1;
    }
    assert(a@ =~= b@);
    true
}

/// Whether a layer name occurs among the available ones.
pub open spec fn layer_available(name: Seq<u8>, available: Seq<Seq<u8>>) -> bool {
    exists|j: int| 0 <= j < available.len() && #[trigger] available[j] == name
}

/// Whether every required layer name occurs among the available ones.
pub open spec fn all_layers_available(required: Seq<Seq<u8>>, available: Seq<Seq<u8>>) -> bool {
    forall|i: int| 0 <= i < required.len() ==> #[trigger] layer_available(required[i], available)
}

/// A required layer that is not offered, wherever it stands in the
/// required list, makes the check fail.
pub proof fn lemma_missing_layer_refused(required: Seq<Seq<u8>>, available: Seq<Seq<u8>>, i: int)
    requires
        0 <= i < required.len(),
        forall|j: int| 0 <= j < available.len() ==> #[trigger] available[j] != required[i],
    ensures
        !all_layers_available(required, available),
{
    assert(!layer_available(required[i], available));
}

/// When every required layer is offered somewhere, the check passes.
pub proof fn lemma_offered_layers_accepted(required: Seq<Seq<u8>>, available: Seq<Seq<u8>>)
    requires
        forall|i: int|
            0 <= i < required.len() ==> exists|j: int|
                0 <= j < available.len() && #[trigger] available[j] == #[trigger] required[i],
    ensures
        all_layers_available(required, available),
{
    assert forall|i: int| 0 <= i < required.len() implies #[trigger] layer_available(
        required[i],
        available,
    ) by {
        let j = choose|j: int| 0 <= j < available.len() && available[j] == required[i];
        assert(available[j] == required[i]);
    }
}

/// Requiring two lists of layers one after the other passes exactly when
/// each list passes on its own.
pub proof fn lemma_layers_split(
    first: Seq<Seq<u8>>,
    second: Seq<Seq<u8>>,
    available: Seq<Seq<u8>>,
)
    ensures
        all_layers_available(first + second, available) == (all_layers_available(first, available)
            && all_layers_available(second, available)),
{
    if all_layers_available(first + second, available) {
        assert forall|i: int| 0 <= i < first.len() implies #[trigger] layer_available(
            first[i],
            available,
        ) by {
            assert((first + second)[i] == first[i]);
        }
        assert forall|i: int| 0 <= i < second.len() implies #[trigger] layer_available(
            second[i],
            available,
        ) by {
            assert((first + second)[first.len() + i] == second[i]);
        }
    }
    if all_layers_available(first, available) && all_layers_available(second, available) {
        assert forall|i: int| 0 <= i < (first + second).len() implies #[trigger] layer_available(
            (first + second)[i],
            available,
        ) by {
            if i < first.len() {
                assert((first + second)[i] == first[i]);
            } else {
                assert((first + second)[i] == second[i - first.len()]);
            }
        }
    }
}

/// Offering more layers never makes a passing check fail.
pub proof fn lemma_layers_more_offered(
    required: Seq<Seq<u8>>,
    available: Seq<Seq<u8>>,
    more: Seq<Seq<u8>>,
)
    requires
        all_layers_available(required, available),
    ensures
        all_layers_available(required, available + more),
        all_layers_available(required, more + available),
{
    assert forall|i: int| 0 <= i < required.len() implies #[trigger] layer_available(
        required[i],
        available + more,
    ) by {
        assert(layer_available(required[i], available));
        let j = choose|j: int| 0 <= j < available.len() && #[trigger] available[j] == required[i];
        assert((available + more)[j] == available[j]);
    }
    assert forall|i: int| 0 <= i < required.len() implies #[trigger] layer_available(
        required[i],
        more + available,
    ) by {
        assert(layer_available(required[i], available));
        let j = choose|j: int| 0 <= j < available.len() && #[trigger] available[j] == required[i];
        assert((more + available)[more.len() + j] == available[j]);
    }
}

/// Checks that each validation layer to enable (its name as bytes) is among
/// the layers the instance offers.
pub fn layers_available(required: &Vec<Vec<u8>>, available: &Vec<Vec<u8>>) -> (r: bool)
    ensures
        r == all_layers_available(required@.map_values(|v: Vec<u8>| v@), available@.map_values(|v: Vec<u8>| v@)),
{
    let ghost req = required@.map_values(|v: Vec<u8>| v@);
    let ghost avail = available@.map_values(|v: Vec<u8>| v@);
    let mut i: usize = 0;
    while i < required.len()
        invariant
            i <= required@.len(),
            req == required@.map_values(|v: Vec<u8>| v@),
            avail == available@.map_values(|v: Vec<u8>| v@),
            avail.len() == available@.len(),
            req.len() == required@.len(),
            forall|k: int| 0 <= k < i ==> #[trigger] layer_available(req[k], avail),
        decreases required@.len() - i,
    {
        let mut found = false;
        let mut j: usize = 0;
        while j < available.len()
            invariant
                i < required@.len(),
                j <= available@.len(),
                req == required@.map_values(|v: Vec<u8>| v@),
                avail == available@.map_values(|v: Vec<u8>| v@),
                avail.len() == available@.len(),
                req.len() == required@.len(),
                found == exists|m: int| 0 <= m < j && #[trigger] avail[m] == req[i as int],
            decreases available@.len() - j,
        {
            let same = same_bytes(&available[j], &required[i]);
            assert(avail[j as int] == available@[j as int]@);
            assert(req[i as int] == required@[i as int]@);
            if same {
                found = true;
            }
            j = j + 1;
        }
        if !found {
            assert(!layer_available(req[i as int], avail));
            return false;
        }
        i = i + 1;
    }
    true
}

/// Whether a message of this severity is fatal: it holds the warning or the
/// error bit.
pub open spec fn is_fatal_severity(severity: u32) -> bool {
    severity & MESSAGE_SEVERITY_WARNING_BIT != 0 || severity & MESSAGE_SEVERITY_ERROR_BIT != 0
}

/// Every warning and every error is fatal, whatever other bits come with it;
/// a message with neither bit (verbose or info) never is.
pub proof fn lemma_fatal_severities(severity: u32)
    ensures
        is_fatal_severity(severity | MESSAGE_SEVERITY_WARNING_BIT),
        is_fatal_severity(severity | MESSAGE_SEVERITY_ERROR_BIT),
        severity & (MESSAGE_SEVERITY_WARNING_BIT | MESSAGE_SEVERITY_ERROR_BIT) == 0
            ==> !is_fatal_severity(severity),
{
    assert(((severity | 0x100u32) & 0x100u32 != 0) && ((severity | 0x1000u32) & 0x1000u32 != 0)
        && (severity & (0x100u32 | 0x1000u32) == 0 ==> severity & 0x100u32 == 0 && severity
        & 0x1000u32 == 0)) by (bit_vector);
}

/// Whether a validation message is fatal: its severity holds the warning or
/// the error bit.
pub fn is_fatal_message(severity: u32) -> (r: bool)
    ensures
        r == (severity & MESSAGE_SEVERITY_WARNING_BIT != 0 || severity & MESSAGE_SEVERITY_ERROR_BIT
            != 0),
        r == is_fatal_severity(severity),
{
    let m = severity & (MESSAGE_SEVERITY_ERROR_BIT | MESSAGE_SEVERITY_WARNING_BIT);
    assert((m != 0) == (severity & 0x100u32 != 0 || severity & 0x1000u32 != 0)) by (bit_vector)
        requires
            m == severity & (0x1000u32 | 0x100u32),
    ;
    m != 0
}

/// `VkResult` value of success.
pub const RESULT_SUCCESS: i32 = 0;

/// `VkResult` value of `VK_SUBOPTIMAL_KHR`: the swapchain still works but no
/// longer matches the surface exactly.
pub const RESULT_SUBOPTIMAL: i32 = 1000001003;

/// `VkResult` value of `VK_ERROR_OUT_OF_DATE_KHR`: the swapchain no longer
/// matches the surface and cannot present.
pub const RESULT_OUT_OF_DATE: i32 = -1000001004;

/// What the frame loop does after acquiring or presenting a swapchain image.
#[derive(Clone, Copy, Debug, PartialEq, Eq, Structural)]
pub enum FrameOutcome {
    /// The call succeeded: go on with the frame.
    Proceed,
    /// The swapchain is out of date or suboptimal: build a new one and start
    /// the frame again.
    RecreateSwapchain,
    /// Any other result is an error the renderer cannot recover from.
    Fail,
}

/// The frame loop's answer to a `VkResult` from acquiring or presenting.
pub open spec fn frame_outcome_of(result: i32) -> FrameOutcome {
    if result == RESULT_OUT_OF_DATE || result == RESULT_SUBOPTIMAL {
        FrameOutcome::RecreateSwapchain
    } else if result == RESULT_SUCCESS {
        FrameOutcome::Proceed
    } else {
        FrameOutcome::Fail
    }
}

/// Success is the only result on which a frame goes on; out-of-date and
/// suboptimal, and only they, rebuild the swapchain; every other result,
/// negative or positive, fails.
pub proof fn lemma_frame_outcomes(result: i32)
    ensures
        (frame_outcome_of(result) == FrameOutcome::Proceed) <==> result == RESULT_SUCCESS,
        (frame_outcome_of(result) == FrameOutcome::RecreateSwapchain) <==> (result
            == RESULT_OUT_OF_DATE || result == RESULT_SUBOPTIMAL),
        result != RESULT_SUCCESS && result != RESULT_OUT_OF_DATE && result != RESULT_SUBOPTIMAL
            ==> frame_outcome_of(result) == FrameOutcome::Fail,
{
}

/// Decides what follows an acquire or a present: an out-of-date or
/// suboptimal swapchain is rebuilt, success goes on, anything else fails.
pub fn frame_outcome(result: i32) -> (r: FrameOutcome)
    ensures
        r == frame_outcome_of(result),
{
    if result == RESULT_OUT_OF_DATE || result == RESULT_SUBOPTIMAL {
        FrameOutcome::RecreateSwapchain
    } else if result == RESULT_SUCCESS {
        FrameOutcome::Proceed
    } else {
        FrameOutcome::Fail
    }
}

/// What rebuilding the swapchain settles before the create call: the image
/// extent, how many images to ask for, and whether the swapchain it
/// replaces has to be destroyed afterwards.
#[derive(Clone, Copy, Debug, PartialEq, Eq, Structural)]
pub struct SwapchainPlan {
    pub width: u32,
    pub height: u32,
    pub min_image_count: u32,
    pub destroy_old: bool,
}

/// Plans a swapchain rebuild from the framebuffer size, the surface's extent
/// limits and minimum image count, and the handle of the swapchain being
/// replaced (0 for none): the extent of `swapchain_extent`, one image more
/// than the surface's minimum, and the old swapchain destroyed exactly when
/// there is one.
pub fn plan_swapchain(
    framebuffer_width: i32,
    framebuffer_height: i32,
    min_extent: (u32, u32),
    max_extent: (u32, u32),
    surface_min_image_count: u32,
    old_swapchain: u64,
) -> (r: SwapchainPlan)
    requires
        min_extent.0 <= max_extent.0,
        min_extent.1 <= max_extent.1,
        surface_min_image_count < u32::MAX,
    ensures
        r.width == clamped(framebuffer_width as u32, min_extent.0, max_extent.0),
        r.height == clamped(framebuffer_height as u32, min_extent.1, max_extent.1),
        r.min_image_count == surface_min_image_count + 1,
        r.destroy_old == (old_swapchain != 0),
{
    let extent = swapchain_extent(framebuffer_width, framebuffer_height, min_extent, max_extent);
    SwapchainPlan {
        width: extent.0,
        height: extent.1,
        min_image_count: surface_min_image_count + 1,
        destroy_old: old_swapchain != 0,
    }
}

} // verus!
