//! How windows are made on this machine, whatever is captured or decoded.
use crate::text;
use vstd::prelude::*;

verus! {

/// Whether windows should go through the X server: there is one, and the user has
/// named no other way.
pub fn prefer_x11(display: Option<&str>, driver: bool, alternate: bool) -> (r: bool)
    ensures
        r <==> (display matches Some(name) && name@.len() > 0) && !driver && !alternate,
{
    match display {
        Some(name) => name.unicode_len() > 0 && !driver && !alternate,
        None => false,
    }
}

/// Whether the framebuffer must not be accelerated. Only on X11 can a window be
/// drawn without that.
pub fn plain_framebuffer(driver: &str) -> (r: bool)
    ensures
        r <==> driver@ == "x11"@,
{
    text::same(driver, "x11")
}

/// The first of the renderers that is the software one.
pub fn software_renderer(names: &Vec<&str>) -> (r: Option<usize>)
    ensures
        r matches Some(i) ==> i < names@.len() && names@[i as int]@ == "software"@ && forall|j: int|
            0 <= j < i ==> (#[trigger] names@[j])@ != "software"@,
        r is None ==> forall|j: int| 0 <= j < names@.len() ==> (#[trigger] names@[j])@
            != "software"@,
{
    let mut i: usize = 0;
    while i < names.len()
        invariant
            i <= names@.len(),
            forall|j: int| 0 <= j < i ==> (#[trigger] names@[j])@ != "software"@,
        decreases names@.len() - i,
    {
        if text::same(names[i], "software") {
            return Some(i);
        }
        i += 1;
    }
    None
}

} // verus!
