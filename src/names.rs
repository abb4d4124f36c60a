use vstd::prelude::*;

verus! {

/// The bytes of an ASCII string.
pub open spec fn ascii(s: Seq<char>) -> Seq<u8> {
    s.map_values(|c: char| c as u8)
}

/// Name of the instance extension that reports validation and driver messages.
pub open spec fn debug_utils_extension() -> Seq<u8> {
    ascii("VK_EXT_debug_utils"@)
}

/// Name of the instance extension that presentation surfaces need.
pub open spec fn surface_extension() -> Seq<u8> {
    ascii("VK_KHR_surface"@)
}

/// Name of the device extension that swapchains need.
pub open spec fn swapchain_extension() -> Seq<u8> {
    ascii("VK_KHR_swapchain"@)
}

/// The byte strings held by a list of names.
pub open spec fn name_views(names: Seq<Vec<u8>>) -> Seq<Seq<u8>> {
    names.map_values(|n: Vec<u8>| n@)
}

/// Whether every required name is among the available ones.
pub open spec fn includes_all(available: Seq<Seq<u8>>, required: Seq<Seq<u8>>) -> bool {
    forall|i: int| 0 <= i < required.len() ==> available.contains(#[trigger] required[i])
}

/// Relies on ash's `ext::DebugUtils::name`: the name of the debug-utils instance extension,
/// without its terminating nul.
#[verifier::external_body]
fn ext_debug_utils_name() -> (r: Vec<u8>)
    ensures
        r@ == debug_utils_extension(),
{
    ash::extensions::ext::DebugUtils::name().to_bytes().to_vec()
}

/// Relies on ash's `khr::Surface::name`: the name of the surface instance extension,
/// without its terminating nul.
#[verifier::external_body]
fn khr_surface_name() -> (r: Vec<u8>)
    ensures
        r@ == surface_extension(),
{
    ash::extensions::khr::Surface::name().to_bytes().to_vec()
}

/// Relies on ash's `khr::Swapchain::name`: the name of the swapchain device extension,
/// without its terminating nul.
#[verifier::external_body]
pub(crate) fn khr_swapchain_name() -> (r: Vec<u8>)
    ensures
        r@ == swapchain_extension(),
{
    ash::extensions::khr::Swapchain::name().to_bytes().to_vec()
}

/// Whether two byte strings are equal.
pub fn bytes_equal(a: &Vec<u8>, b: &Vec<u8>) -> (r: bool)
    ensures
        r == (a@ == b@),
{
    if a.len() != b.len() {
        return false;
    }
    let mut i: usize = 0;
    while i < a.len()
        invariant
            a@.len() == b@.len(),
            i <= a@.len(),
            forall|j: int| 0 <= j < i ==> a@[j] == b@[j],
        decreases a@.len() - i,
    {
        if a[i] != b[i] {
            return false;
        }
        i = i + 1;
    }
    proof {
        assert(a@ =~= b@);
    }
    true
}

/// Whether `name` is one of `names`.
pub fn contains_name(names: &Vec<Vec<u8>>, name: &Vec<u8>) -> (r: bool)
    ensures
        r == name_views(names@).contains(name@),
{
    let mut i: usize = 0;
    while i < names.len()
        invariant
            i <= names@.len(),
            forall|j: int| 0 <= j < i ==> names@[j]@ != name@,
        decreases names@.len() - i,
    {
        if bytes_equal(&names[i], name) {
            proof {
                assert(name_views(names@)[i as int] == name@);
            }
            return true;
        }
        i = i + 1;
    }
    proof {
        if name_views(names@).contains(name@) {
            let k = choose|k: int| 0 <= k < name_views(names@).len() && name_views(names@)[k] == name@;
            assert(names@[k]@ == name@);
        }
    }
    false
}

/// Whether every name of `required` is one of `available`.
pub fn includes_all_names(available: &Vec<Vec<u8>>, required: &Vec<Vec<u8>>) -> (r: bool)
    ensures
        r == includes_all(name_views(available@), name_views(required@)),
{
    let mut i: usize = 0;
    while i < required.len()
        invariant
            i <= required@.len(),
            forall|j: int|
                0 <= j < i ==> name_views(available@).contains(#[trigger] name_views(required@)[j]),
        decreases required@.len() - i,
    {
        if !contains_name(available, &required[i]) {
            proof {
                assert(name_views(required@)[i as int] == required@[i as int]@);
            }
            return false;
        }
        i = i + 1;
    }
    true
}

/// Whether the device extensions `required` ask for swapchains.
pub fn requires_swapchain(required: &Vec<Vec<u8>>) -> (r: bool)
    ensures
        r == name_views(required@).contains(swapchain_extension()),
{
    let name = khr_swapchain_name();
    contains_name(required, &name)
}

/// The instance extensions a context presenting to a window is created with: debug utils
/// and surface, then those the window system asks for.
pub fn instance_extension_names(window_extensions: Vec<Vec<u8>>) -> (r: Vec<Vec<u8>>)
    ensures
        name_views(r@) == seq![debug_utils_extension(), surface_extension()] + name_views(
            window_extensions@,
        ),
{
    let mut r: Vec<Vec<u8>> = Vec::new();
    r.push(ext_debug_utils_name());
    r.push(khr_surface_name());
    let mut rest = window_extensions;
    r.append(&mut rest);
    proof {
        assert(name_views(r@) =~= seq![debug_utils_extension(), surface_extension()] + name_views(
            window_extensions@,
        ));
    }
    r
}

} // verus!
