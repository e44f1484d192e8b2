//! The presentable surface: what it can do, how it is configured, and what
//! to do when it fails to hand out a frame.

use vstd::prelude::*;

verus! {

/// The pixel format of a texture, as `wgpu` names it. Opaque here: a format
/// is chosen, stored and handed on, never looked into.
#[verifier::external_type_specification]
#[verifier::external_body]
pub struct ExTextureFormat(wgpu::TextureFormat);

/// How `wgpu` paces the presentation of frames. Opaque here.
#[verifier::external_type_specification]
#[verifier::external_body]
pub struct ExPresentMode(wgpu::PresentMode);

/// How `wgpu` treats the alpha channel when the surface is composited.
/// Opaque here.
#[verifier::external_type_specification]
#[verifier::external_body]
pub struct ExCompositeAlphaMode(wgpu::CompositeAlphaMode);

/// Whether `wgpu` describes `format` as gamma-corrected (sRGB).
pub uninterp spec fn format_is_srgb(format: wgpu::TextureFormat) -> bool;

/// Calls `wgpu::TextureFormat::describe` and reads the `srgb` field of what
/// it returns. The description is a fixed table over the formats, so the
/// flag depends on the format alone; the call cannot fail.
#[verifier::external_body]
fn describes_srgb(format: &wgpu::TextureFormat) -> (flag: bool)
    ensures
        flag == format_is_srgb(*format),
{
    format.describe().srgb
}

/// A size in physical pixels.
#[derive(Clone, Copy, Debug, PartialEq, Eq, Structural)]
pub struct Size {
    pub width: u32,
    pub height: u32,
}

/// What a surface supports on the adapter it was paired with. In each list
/// the first entry is the one the surface prefers.
#[derive(Debug)]
pub struct SurfaceCapabilities {
    pub formats: Vec<wgpu::TextureFormat>,
    pub present_modes: Vec<wgpu::PresentMode>,
    pub alpha_modes: Vec<wgpu::CompositeAlphaMode>,
}

/// The configuration of a surface.
#[derive(Clone, Copy, Debug, PartialEq, Eq)]
pub struct SurfaceConfig {
    pub format: wgpu::TextureFormat,
    pub width: u32,
    pub height: u32,
    pub present_mode: wgpu::PresentMode,
    pub alpha_mode: wgpu::CompositeAlphaMode,
}

/// Why no configuration could be made for a surface.
#[derive(Clone, Copy, Debug, PartialEq, Eq, Structural)]
pub enum InitError {
    /// The surface supports no pixel format.
    NoFormat,
    /// The surface supports no presentation mode.
    NoPresentMode,
    /// The surface supports no alpha mode.
    NoAlphaMode,
    /// The width or the height is zero.
    ZeroArea,
}

/// The sRGB flag of each format, in order.
pub open spec fn srgb_flags(formats: Seq<wgpu::TextureFormat>) -> Seq<bool> {
    formats.map_values(|format: wgpu::TextureFormat| format_is_srgb(format))
}

/// Whether `index` is the preferred position among `flags`: the first one
/// that is set, or the first one of all where none is set.
pub open spec fn is_preferred(flags: Seq<bool>, index: int) -> bool {
    &&& 0 <= index < flags.len()
    &&& forall|j: int| 0 <= j < index ==> !flags[j]
    &&& flags[index] || (index == 0 && forall|j: int| 0 <= j < flags.len() ==> !flags[j])
}

/// The preferred position among `flags`. Meaningful where `flags` is not
/// empty.
pub open spec fn preferred_position(flags: Seq<bool>) -> int {
    choose|index: int| is_preferred(flags, index)
}

/// At most one position is preferred.
pub proof fn lemma_preferred_is_unique(flags: Seq<bool>, i: int, j: int)
    requires
        is_preferred(flags, i),
        is_preferred(flags, j),
    ensures
        i == j,
{
}

/// The format to configure a surface with, given the formats it supports:
/// the first sRGB format, or the first format where none is sRGB; none
/// where the list is empty.
pub open spec fn preferred_format(formats: Seq<wgpu::TextureFormat>) -> Option<
    wgpu::TextureFormat,
> {
    if formats.len() == 0 {
        None
    } else {
        Some(formats[preferred_position(srgb_flags(formats))])
    }
}

/// The configuration for a surface of the given size and capabilities, or
/// the reason why there is none. The reasons are tested in the order of
/// `InitError`'s variants.
pub open spec fn configured(size: Size, capabilities: SurfaceCapabilities) -> Result<
    SurfaceConfig,
    InitError,
> {
    if capabilities.formats@.len() == 0 {
        Err(InitError::NoFormat)
    } else if capabilities.present_modes@.len() == 0 {
        Err(InitError::NoPresentMode)
    } else if capabilities.alpha_modes@.len() == 0 {
        Err(InitError::NoAlphaMode)
    } else if size.width == 0 || size.height == 0 {
        Err(InitError::ZeroArea)
    } else {
        Ok(
            SurfaceConfig {
                format: capabilities.formats@[preferred_position(
                    srgb_flags(capabilities.formats@),
                )],
                width: size.width,
                height: size.height,
                present_mode: capabilities.present_modes@[0],
                alpha_mode: capabilities.alpha_modes@[0],
            },
        )
    }
}

/// Finds the preferred position among `flags`.
pub fn preferred_index(flags: &Vec<bool>) -> (index: Option<usize>)
    ensures
        index is None <==> flags@.len() == 0,
        index matches Some(i) ==> is_preferred(flags@, i as int) && i == preferred_position(
            flags@,
        ),
{
    let mut i: usize = 0;
    while i < flags.len()
        invariant
            i <= flags.len(),
            forall|j: int| 0 <= j < i ==> !flags@[j],
        decreases flags.len() - i,
    {
        if flags[i] {
            proof {
                assert(is_preferred(flags@, i as int));
                lemma_preferred_is_unique(flags@, i as int, preferred_position(flags@));
            }
            return Some(i);
        }
        i += 1;
    }
    if flags.len() == 0 {
        None
    } else {
        proof {
            assert(is_preferred(flags@, 0));
            lemma_preferred_is_unique(flags@, 0, preferred_position(flags@));
        }
        Some(0)
    }
}

/// Asks `wgpu` for the sRGB flag of each format.
pub fn describe_formats(formats: &Vec<wgpu::TextureFormat>) -> (flags: Vec<bool>)
    ensures
        flags@ == srgb_flags(formats@),
{
    let mut flags: Vec<bool> = Vec::new();
    let mut i: usize = 0;
    while i < formats.len()
        invariant
            i <= formats.len(),
            flags@ == srgb_flags(formats@.take(i as int)),
        decreases formats.len() - i,
    {
        let flag = describes_srgb(&formats[i]);
        flags.push(flag);
        proof {
            assert(formats@.take(i + 1) == formats@.take(i as int).push(formats@[i as int]));
        }
        i += 1;
    }
    proof {
        assert(formats@.take(i as int) == formats@);
    }
    flags
}

/// Chooses the format to configure a surface with.
pub fn choose_format(formats: &Vec<wgpu::TextureFormat>) -> (format: Option<wgpu::TextureFormat>)
    ensures
        format == preferred_format(formats@),
{
    let flags = describe_formats(formats);
    match preferred_index(&flags) {
        Some(i) => Some(formats[i]),
        None => None,
    }
}

/// Makes the configuration for a surface of the given size and
/// capabilities: the preferred format, the size, and the first
/// presentation mode and alpha mode that the surface supports.
pub fn configure(size: Size, capabilities: &SurfaceCapabilities) -> (made: Result<
    SurfaceConfig,
    InitError,
>)
    ensures
        made == configured(size, *capabilities),
{
    let format = match choose_format(&capabilities.formats) {
        Some(format) => format,
        None => {
            return Err(InitError::NoFormat);
        },
    };
    if capabilities.present_modes.len() == 0 {
        return Err(InitError::NoPresentMode);
    }
    if capabilities.alpha_modes.len() == 0 {
        return Err(InitError::NoAlphaMode);
    }
    if size.width == 0 || size.height == 0 {
        return Err(InitError::ZeroArea);
    }
    Ok(
        SurfaceConfig {
            format,
            width: size.width,
            height: size.height,
            present_mode: capabilities.present_modes[0],
            alpha_mode: capabilities.alpha_modes[0],
        },
    )
}

/// Why the surface could not hand out its next frame.
#[derive(Clone, Copy, Debug, PartialEq, Eq, Structural)]
pub enum SurfaceError {
    /// The frame did not come in time.
    Timeout,
    /// The surface has changed under its configuration.
    Outdated,
    /// The surface was lost and has to be made again.
    Lost,
    /// No memory is left for a new frame.
    OutOfMemory,
}

/// What the caller of the renderer does after a frame could not be had.
#[derive(Clone, Copy, Debug, PartialEq, Eq, Structural)]
pub enum Recovery {
    /// Drop the frame; the next one is attempted as usual.
    Skip,
    /// Apply the current configuration to the surface again, then go on.
    Reconfigure,
    /// Give up: the application ends.
    Exit,
}

/// The recovery that each failure calls for: a timeout is skipped, a lost
/// or outdated surface is configured again, exhausted memory is fatal.
pub open spec fn recovery_for(error: SurfaceError) -> Recovery {
    match error {
        SurfaceError::Timeout => Recovery::Skip,
        SurfaceError::Outdated => Recovery::Reconfigure,
        SurfaceError::Lost => Recovery::Reconfigure,
        SurfaceError::OutOfMemory => Recovery::Exit,
    }
}

/// Decides how to recover from a failure to acquire a frame.
pub fn recovery(error: SurfaceError) -> (recovery: Recovery)
    ensures
        recovery == recovery_for(error),
        recovery is Skip <==> error is Timeout,
        recovery is Reconfigure <==> (error is Outdated || error is Lost),
        recovery is Exit <==> error is OutOfMemory,
{
    match error {
        SurfaceError::Timeout => Recovery::Skip,
        SurfaceError::Outdated | SurfaceError::Lost => Recovery::Reconfigure,
        SurfaceError::OutOfMemory => Recovery::Exit,
    }
}

} // verus!
