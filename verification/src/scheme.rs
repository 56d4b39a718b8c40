//! Material color schemes: the mapping from color roles to concrete colors,
//! built from a core palette at fixed tone stops.
use vstd::prelude::*;

use crate::palettes::core_palette::{core_ok, core_view, CorePalette, CoreSpec};
use crate::palettes::tonal::spec_tone_argb;

verus! {

/// A color role of a scheme: a named slot a concrete color is assigned to.
#[derive(Clone, Copy, Debug)]
pub enum Role {
    /// Main accent color.
    Primary,
    /// Content on the main accent.
    OnPrimary,
    /// Subdued container of the main accent.
    PrimaryContainer,
    /// Content on the primary container.
    OnPrimaryContainer,
    /// Secondary accent color.
    Secondary,
    /// Content on the secondary accent.
    OnSecondary,
    /// Subdued container of the secondary accent.
    SecondaryContainer,
    /// Content on the secondary container.
    OnSecondaryContainer,
    /// Tertiary accent color.
    Tertiary,
    /// Content on the tertiary accent.
    OnTertiary,
    /// Subdued container of the tertiary accent.
    TertiaryContainer,
    /// Content on the tertiary container.
    OnTertiaryContainer,
    /// Error signaling color.
    Error,
    /// Content on the error color.
    OnError,
    /// Subdued container of the error color.
    ErrorContainer,
    /// Content on the error container.
    OnErrorContainer,
    /// Window background.
    Background,
    /// Content on the background.
    OnBackground,
    /// Surface of components.
    Surface,
    /// Content on surfaces.
    OnSurface,
    /// Alternative surface tint.
    SurfaceVariant,
    /// Content on the surface variant.
    OnSurfaceVariant,
    /// Boundaries and dividers.
    Outline,
    /// Subdued boundaries.
    OutlineVariant,
    /// Shadows.
    Shadow,
    /// Scrims over content.
    Scrim,
    /// Surface in the opposite brightness.
    InverseSurface,
    /// Content on the inverse surface.
    InverseOnSurface,
    /// Primary accent against the inverse surface.
    InversePrimary,
}

impl Role {
    /// Every role, in declaration order.
    pub fn iterator() -> (r: Vec<Role>)
        ensures
            r@ == seq![
                Role::Primary,
                Role::OnPrimary,
                Role::PrimaryContainer,
                Role::OnPrimaryContainer,
                Role::Secondary,
                Role::OnSecondary,
                Role::SecondaryContainer,
                Role::OnSecondaryContainer,
                Role::Tertiary,
                Role::OnTertiary,
                Role::TertiaryContainer,
                Role::OnTertiaryContainer,
                Role::Error,
                Role::OnError,
                Role::ErrorContainer,
                Role::OnErrorContainer,
                Role::Background,
                Role::OnBackground,
                Role::Surface,
                Role::OnSurface,
                Role::SurfaceVariant,
                Role::OnSurfaceVariant,
                Role::Outline,
                Role::OutlineVariant,
                Role::Shadow,
                Role::Scrim,
                Role::InverseSurface,
                Role::InverseOnSurface,
                Role::InversePrimary,
            ],
    {
        let mut v: Vec<Role> = Vec::new();
        v.push(Role::Primary);
        v.push(Role::OnPrimary);
        v.push(Role::PrimaryContainer);
        v.push(Role::OnPrimaryContainer);
        v.push(Role::Secondary);
        v.push(Role::OnSecondary);
        v.push(Role::SecondaryContainer);
        v.push(Role::OnSecondaryContainer);
        v.push(Role::Tertiary);
        v.push(Role::OnTertiary);
        v.push(Role::TertiaryContainer);
        v.push(Role::OnTertiaryContainer);
        v.push(Role::Error);
        v.push(Role::OnError);
        v.push(Role::ErrorContainer);
        v.push(Role::OnErrorContainer);
        v.push(Role::Background);
        v.push(Role::OnBackground);
        v.push(Role::Surface);
        v.push(Role::OnSurface);
        v.push(Role::SurfaceVariant);
        v.push(Role::OnSurfaceVariant);
        v.push(Role::Outline);
        v.push(Role::OutlineVariant);
        v.push(Role::Shadow);
        v.push(Role::Scrim);
        v.push(Role::InverseSurface);
        v.push(Role::InverseOnSurface);
        v.push(Role::InversePrimary);
        proof {
            assert(v@ =~= seq![
                Role::Primary,
                Role::OnPrimary,
                Role::PrimaryContainer,
                Role::OnPrimaryContainer,
                Role::Secondary,
                Role::OnSecondary,
                Role::SecondaryContainer,
                Role::OnSecondaryContainer,
                Role::Tertiary,
                Role::OnTertiary,
                Role::TertiaryContainer,
                Role::OnTertiaryContainer,
                Role::Error,
                Role::OnError,
                Role::ErrorContainer,
                Role::OnErrorContainer,
                Role::Background,
                Role::OnBackground,
                Role::Surface,
                Role::OnSurface,
                Role::SurfaceVariant,
                Role::OnSurfaceVariant,
                Role::Outline,
                Role::OutlineVariant,
                Role::Shadow,
                Role::Scrim,
                Role::InverseSurface,
                Role::InverseOnSurface,
                Role::InversePrimary,
            ]);
        }
        v
    }
}

/// A Material color scheme: one concrete ARGB color per role.
#[derive(Clone, Debug)]
pub struct Scheme {
    /// Color of the Primary role.
    pub primary: [u8; 4],
    /// Color of the OnPrimary role.
    pub on_primary: [u8; 4],
    /// Color of the PrimaryContainer role.
    pub primary_container: [u8; 4],
    /// Color of the OnPrimaryContainer role.
    pub on_primary_container: [u8; 4],
    /// Color of the Secondary role.
    pub secondary: [u8; 4],
    /// Color of the OnSecondary role.
    pub on_secondary: [u8; 4],
    /// Color of the SecondaryContainer role.
    pub secondary_container: [u8; 4],
    /// Color of the OnSecondaryContainer role.
    pub on_secondary_container: [u8; 4],
    /// Color of the Tertiary role.
    pub tertiary: [u8; 4],
    /// Color of the OnTertiary role.
    pub on_tertiary: [u8; 4],
    /// Color of the TertiaryContainer role.
    pub tertiary_container: [u8; 4],
    /// Color of the OnTertiaryContainer role.
    pub on_tertiary_container: [u8; 4],
    /// Color of the Error role.
    pub error: [u8; 4],
    /// Color of the OnError role.
    pub on_error: [u8; 4],
    /// Color of the ErrorContainer role.
    pub error_container: [u8; 4],
    /// Color of the OnErrorContainer role.
    pub on_error_container: [u8; 4],
    /// Color of the Background role.
    pub background: [u8; 4],
    /// Color of the OnBackground role.
    pub on_background: [u8; 4],
    /// Color of the Surface role.
    pub surface: [u8; 4],
    /// Color of the OnSurface role.
    pub on_surface: [u8; 4],
    /// Color of the SurfaceVariant role.
    pub surface_variant: [u8; 4],
    /// Color of the OnSurfaceVariant role.
    pub on_surface_variant: [u8; 4],
    /// Color of the Outline role.
    pub outline: [u8; 4],
    /// Color of the OutlineVariant role.
    pub outline_variant: [u8; 4],
    /// Color of the Shadow role.
    pub shadow: [u8; 4],
    /// Color of the Scrim role.
    pub scrim: [u8; 4],
    /// Color of the InverseSurface role.
    pub inverse_surface: [u8; 4],
    /// Color of the InverseOnSurface role.
    pub inverse_on_surface: [u8; 4],
    /// Color of the InversePrimary role.
    pub inverse_primary: [u8; 4],
}

/// The color a scheme assigns to a role.
pub open spec fn spec_scheme_index(s: Scheme, role: Role) -> [u8; 4] {
    match role {
        Role::Primary => s.primary,
        Role::OnPrimary => s.on_primary,
        Role::PrimaryContainer => s.primary_container,
        Role::OnPrimaryContainer => s.on_primary_container,
        Role::Secondary => s.secondary,
        Role::OnSecondary => s.on_secondary,
        Role::SecondaryContainer => s.secondary_container,
        Role::OnSecondaryContainer => s.on_secondary_container,
        Role::Tertiary => s.tertiary,
        Role::OnTertiary => s.on_tertiary,
        Role::TertiaryContainer => s.tertiary_container,
        Role::OnTertiaryContainer => s.on_tertiary_container,
        Role::Error => s.error,
        Role::OnError => s.on_error,
        Role::ErrorContainer => s.error_container,
        Role::OnErrorContainer => s.on_error_container,
        Role::Background => s.background,
        Role::OnBackground => s.on_background,
        Role::Surface => s.surface,
        Role::OnSurface => s.on_surface,
        Role::SurfaceVariant => s.surface_variant,
        Role::OnSurfaceVariant => s.on_surface_variant,
        Role::Outline => s.outline,
        Role::OutlineVariant => s.outline_variant,
        Role::Shadow => s.shadow,
        Role::Scrim => s.scrim,
        Role::InverseSurface => s.inverse_surface,
        Role::InverseOnSurface => s.inverse_on_surface,
        Role::InversePrimary => s.inverse_primary,
    }
}

/// A light scheme as assembled from a core palette: every role's color is
/// the palette color at that role's documented tone stop.
pub open spec fn spec_light_scheme_ok(s: Scheme, core: CoreSpec) -> bool {
    &&& s.primary[0] == 255
    &&& (s.primary[1] as int, s.primary[2] as int, s.primary[3] as int) == spec_tone_argb(core.a1h, core.a1c, 40)
    &&& s.on_primary[0] == 255
    &&& (s.on_primary[1] as int, s.on_primary[2] as int, s.on_primary[3] as int) == spec_tone_argb(core.a1h, core.a1c, 100)
    &&& s.primary_container[0] == 255
    &&& (s.primary_container[1] as int, s.primary_container[2] as int, s.primary_container[3] as int) == spec_tone_argb(core.a1h, core.a1c, 90)
    &&& s.on_primary_container[0] == 255
    &&& (s.on_primary_container[1] as int, s.on_primary_container[2] as int, s.on_primary_container[3] as int) == spec_tone_argb(core.a1h, core.a1c, 10)
    &&& s.secondary[0] == 255
    &&& (s.secondary[1] as int, s.secondary[2] as int, s.secondary[3] as int) == spec_tone_argb(core.a2h, core.a2c, 40)
    &&& s.on_secondary[0] == 255
    &&& (s.on_secondary[1] as int, s.on_secondary[2] as int, s.on_secondary[3] as int) == spec_tone_argb(core.a2h, core.a2c, 100)
    &&& s.secondary_container[0] == 255
    &&& (s.secondary_container[1] as int, s.secondary_container[2] as int, s.secondary_container[3] as int) == spec_tone_argb(core.a2h, core.a2c, 90)
    &&& s.on_secondary_container[0] == 255
    &&& (s.on_secondary_container[1] as int, s.on_secondary_container[2] as int, s.on_secondary_container[3] as int) == spec_tone_argb(core.a2h, core.a2c, 10)
    &&& s.tertiary[0] == 255
    &&& (s.tertiary[1] as int, s.tertiary[2] as int, s.tertiary[3] as int) == spec_tone_argb(core.a3h, core.a3c, 40)
    &&& s.on_tertiary[0] == 255
    &&& (s.on_tertiary[1] as int, s.on_tertiary[2] as int, s.on_tertiary[3] as int) == spec_tone_argb(core.a3h, core.a3c, 100)
    &&& s.tertiary_container[0] == 255
    &&& (s.tertiary_container[1] as int, s.tertiary_container[2] as int, s.tertiary_container[3] as int) == spec_tone_argb(core.a3h, core.a3c, 90)
    &&& s.on_tertiary_container[0] == 255
    &&& (s.on_tertiary_container[1] as int, s.on_tertiary_container[2] as int, s.on_tertiary_container[3] as int) == spec_tone_argb(core.a3h, core.a3c, 10)
    &&& s.error[0] == 255
    &&& (s.error[1] as int, s.error[2] as int, s.error[3] as int) == spec_tone_argb(core.eh, core.ec, 40)
    &&& s.on_error[0] == 255
    &&& (s.on_error[1] as int, s.on_error[2] as int, s.on_error[3] as int) == spec_tone_argb(core.eh, core.ec, 100)
    &&& s.error_container[0] == 255
    &&& (s.error_container[1] as int, s.error_container[2] as int, s.error_container[3] as int) == spec_tone_argb(core.eh, core.ec, 90)
    &&& s.on_error_container[0] == 255
    &&& (s.on_error_container[1] as int, s.on_error_container[2] as int, s.on_error_container[3] as int) == spec_tone_argb(core.eh, core.ec, 10)
    &&& s.background[0] == 255
    &&& (s.background[1] as int, s.background[2] as int, s.background[3] as int) == spec_tone_argb(core.n1h, core.n1c, 99)
    &&& s.on_background[0] == 255
    &&& (s.on_background[1] as int, s.on_background[2] as int, s.on_background[3] as int) == spec_tone_argb(core.n1h, core.n1c, 10)
    &&& s.surface[0] == 255
    &&& (s.surface[1] as int, s.surface[2] as int, s.surface[3] as int) == spec_tone_argb(core.n1h, core.n1c, 99)
    &&& s.on_surface[0] == 255
    &&& (s.on_surface[1] as int, s.on_surface[2] as int, s.on_surface[3] as int) == spec_tone_argb(core.n1h, core.n1c, 10)
    &&& s.surface_variant[0] == 255
    &&& (s.surface_variant[1] as int, s.surface_variant[2] as int, s.surface_variant[3] as int) == spec_tone_argb(core.n2h, core.n2c, 90)
    &&& s.on_surface_variant[0] == 255
    &&& (s.on_surface_variant[1] as int, s.on_surface_variant[2] as int, s.on_surface_variant[3] as int) == spec_tone_argb(core.n2h, core.n2c, 30)
    &&& s.outline[0] == 255
    &&& (s.outline[1] as int, s.outline[2] as int, s.outline[3] as int) == spec_tone_argb(core.n2h, core.n2c, 50)
    &&& s.outline_variant[0] == 255
    &&& (s.outline_variant[1] as int, s.outline_variant[2] as int, s.outline_variant[3] as int) == spec_tone_argb(core.n2h, core.n2c, 80)
    &&& s.shadow[0] == 255
    &&& (s.shadow[1] as int, s.shadow[2] as int, s.shadow[3] as int) == spec_tone_argb(core.n1h, core.n1c, 0)
    &&& s.scrim[0] == 255
    &&& (s.scrim[1] as int, s.scrim[2] as int, s.scrim[3] as int) == spec_tone_argb(core.n1h, core.n1c, 0)
    &&& s.inverse_surface[0] == 255
    &&& (s.inverse_surface[1] as int, s.inverse_surface[2] as int, s.inverse_surface[3] as int) == spec_tone_argb(core.n1h, core.n1c, 20)
    &&& s.inverse_on_surface[0] == 255
    &&& (s.inverse_on_surface[1] as int, s.inverse_on_surface[2] as int, s.inverse_on_surface[3] as int) == spec_tone_argb(core.n1h, core.n1c, 95)
    &&& s.inverse_primary[0] == 255
    &&& (s.inverse_primary[1] as int, s.inverse_primary[2] as int, s.inverse_primary[3] as int) == spec_tone_argb(core.a1h, core.a1c, 80)
}

/// A dark scheme as assembled from a core palette: every role's color is
/// the palette color at that role's documented tone stop.
pub open spec fn spec_dark_scheme_ok(s: Scheme, core: CoreSpec) -> bool {
    &&& s.primary[0] == 255
    &&& (s.primary[1] as int, s.primary[2] as int, s.primary[3] as int) == spec_tone_argb(core.a1h, core.a1c, 80)
    &&& s.on_primary[0] == 255
    &&& (s.on_primary[1] as int, s.on_primary[2] as int, s.on_primary[3] as int) == spec_tone_argb(core.a1h, core.a1c, 20)
    &&& s.primary_container[0] == 255
    &&& (s.primary_container[1] as int, s.primary_container[2] as int, s.primary_container[3] as int) == spec_tone_argb(core.a1h, core.a1c, 30)
    &&& s.on_primary_container[0] == 255
    &&& (s.on_primary_container[1] as int, s.on_primary_container[2] as int, s.on_primary_container[3] as int) == spec_tone_argb(core.a1h, core.a1c, 90)
    &&& s.secondary[0] == 255
    &&& (s.secondary[1] as int, s.secondary[2] as int, s.secondary[3] as int) == spec_tone_argb(core.a2h, core.a2c, 80)
    &&& s.on_secondary[0] == 255
    &&& (s.on_secondary[1] as int, s.on_secondary[2] as int, s.on_secondary[3] as int) == spec_tone_argb(core.a2h, core.a2c, 20)
    &&& s.secondary_container[0] == 255
    &&& (s.secondary_container[1] as int, s.secondary_container[2] as int, s.secondary_container[3] as int) == spec_tone_argb(core.a2h, core.a2c, 30)
    &&& s.on_secondary_container[0] == 255
    &&& (s.on_secondary_container[1] as int, s.on_secondary_container[2] as int, s.on_secondary_container[3] as int) == spec_tone_argb(core.a2h, core.a2c, 90)
    &&& s.tertiary[0] == 255
    &&& (s.tertiary[1] as int, s.tertiary[2] as int, s.tertiary[3] as int) == spec_tone_argb(core.a3h, core.a3c, 80)
    &&& s.on_tertiary[0] == 255
    &&& (s.on_tertiary[1] as int, s.on_tertiary[2] as int, s.on_tertiary[3] as int) == spec_tone_argb(core.a3h, core.a3c, 20)
    &&& s.tertiary_container[0] == 255
    &&& (s.tertiary_container[1] as int, s.tertiary_container[2] as int, s.tertiary_container[3] as int) == spec_tone_argb(core.a3h, core.a3c, 30)
    &&& s.on_tertiary_container[0] == 255
    &&& (s.on_tertiary_container[1] as int, s.on_tertiary_container[2] as int, s.on_tertiary_container[3] as int) == spec_tone_argb(core.a3h, core.a3c, 90)
    &&& s.error[0] == 255
    &&& (s.error[1] as int, s.error[2] as int, s.error[3] as int) == spec_tone_argb(core.eh, core.ec, 80)
    &&& s.on_error[0] == 255
    &&& (s.on_error[1] as int, s.on_error[2] as int, s.on_error[3] as int) == spec_tone_argb(core.eh, core.ec, 20)
    &&& s.error_container[0] == 255
    &&& (s.error_container[1] as int, s.error_container[2] as int, s.error_container[3] as int) == spec_tone_argb(core.eh, core.ec, 30)
    &&& s.on_error_container[0] == 255
    &&& (s.on_error_container[1] as int, s.on_error_container[2] as int, s.on_error_container[3] as int) == spec_tone_argb(core.eh, core.ec, 90)
    &&& s.background[0] == 255
    &&& (s.background[1] as int, s.background[2] as int, s.background[3] as int) == spec_tone_argb(core.n1h, core.n1c, 10)
    &&& s.on_background[0] == 255
    &&& (s.on_background[1] as int, s.on_background[2] as int, s.on_background[3] as int) == spec_tone_argb(core.n1h, core.n1c, 90)
    &&& s.surface[0] == 255
    &&& (s.surface[1] as int, s.surface[2] as int, s.surface[3] as int) == spec_tone_argb(core.n1h, core.n1c, 10)
    &&& s.on_surface[0] == 255
    &&& (s.on_surface[1] as int, s.on_surface[2] as int, s.on_surface[3] as int) == spec_tone_argb(core.n1h, core.n1c, 90)
    &&& s.surface_variant[0] == 255
    &&& (s.surface_variant[1] as int, s.surface_variant[2] as int, s.surface_variant[3] as int) == spec_tone_argb(core.n2h, core.n2c, 30)
    &&& s.on_surface_variant[0] == 255
    &&& (s.on_surface_variant[1] as int, s.on_surface_variant[2] as int, s.on_surface_variant[3] as int) == spec_tone_argb(core.n2h, core.n2c, 80)
    &&& s.outline[0] == 255
    &&& (s.outline[1] as int, s.outline[2] as int, s.outline[3] as int) == spec_tone_argb(core.n2h, core.n2c, 60)
    &&& s.outline_variant[0] == 255
    &&& (s.outline_variant[1] as int, s.outline_variant[2] as int, s.outline_variant[3] as int) == spec_tone_argb(core.n2h, core.n2c, 30)
    &&& s.shadow[0] == 255
    &&& (s.shadow[1] as int, s.shadow[2] as int, s.shadow[3] as int) == spec_tone_argb(core.n1h, core.n1c, 0)
    &&& s.scrim[0] == 255
    &&& (s.scrim[1] as int, s.scrim[2] as int, s.scrim[3] as int) == spec_tone_argb(core.n1h, core.n1c, 0)
    &&& s.inverse_surface[0] == 255
    &&& (s.inverse_surface[1] as int, s.inverse_surface[2] as int, s.inverse_surface[3] as int) == spec_tone_argb(core.n1h, core.n1c, 90)
    &&& s.inverse_on_surface[0] == 255
    &&& (s.inverse_on_surface[1] as int, s.inverse_on_surface[2] as int, s.inverse_on_surface[3] as int) == spec_tone_argb(core.n1h, core.n1c, 20)
    &&& s.inverse_primary[0] == 255
    &&& (s.inverse_primary[1] as int, s.inverse_primary[2] as int, s.inverse_primary[3] as int) == spec_tone_argb(core.a1h, core.a1c, 40)
}

impl Scheme {
    /// The color assigned to a role, by exhaustive match.
    pub fn index(&self, role: &Role) -> (r: [u8; 4])
        ensures
            r == spec_scheme_index(*self, *role),
    {
        match role {
            Role::Primary => self.primary,
            Role::OnPrimary => self.on_primary,
            Role::PrimaryContainer => self.primary_container,
            Role::OnPrimaryContainer => self.on_primary_container,
            Role::Secondary => self.secondary,
            Role::OnSecondary => self.on_secondary,
            Role::SecondaryContainer => self.secondary_container,
            Role::OnSecondaryContainer => self.on_secondary_container,
            Role::Tertiary => self.tertiary,
            Role::OnTertiary => self.on_tertiary,
            Role::TertiaryContainer => self.tertiary_container,
            Role::OnTertiaryContainer => self.on_tertiary_container,
            Role::Error => self.error,
            Role::OnError => self.on_error,
            Role::ErrorContainer => self.error_container,
            Role::OnErrorContainer => self.on_error_container,
            Role::Background => self.background,
            Role::OnBackground => self.on_background,
            Role::Surface => self.surface,
            Role::OnSurface => self.on_surface,
            Role::SurfaceVariant => self.surface_variant,
            Role::OnSurfaceVariant => self.on_surface_variant,
            Role::Outline => self.outline,
            Role::OutlineVariant => self.outline_variant,
            Role::Shadow => self.shadow,
            Role::Scrim => self.scrim,
            Role::InverseSurface => self.inverse_surface,
            Role::InverseOnSurface => self.inverse_on_surface,
            Role::InversePrimary => self.inverse_primary,
        }
    }

    /// Assembles the light scheme of a core palette at the documented tone
    /// stops. Only the palettes' caches change; their hues and chromas are
    /// untouched.
    pub fn light_from_core_palette(core: &mut CorePalette) -> (r: Scheme)
        requires
            core_ok(*old(core)),
        ensures
            core_ok(*final(core)),
            core_view(*final(core)) == core_view(*old(core)),
            spec_light_scheme_ok(r, core_view(*old(core))),
    {
        Scheme {
            primary: core.a1.tone(40),
            on_primary: core.a1.tone(100),
            primary_container: core.a1.tone(90),
            on_primary_container: core.a1.tone(10),
            secondary: core.a2.tone(40),
            on_secondary: core.a2.tone(100),
            secondary_container: core.a2.tone(90),
            on_secondary_container: core.a2.tone(10),
            tertiary: core.a3.tone(40),
            on_tertiary: core.a3.tone(100),
            tertiary_container: core.a3.tone(90),
            on_tertiary_container: core.a3.tone(10),
            error: core.error.tone(40),
            on_error: core.error.tone(100),
            error_container: core.error.tone(90),
            on_error_container: core.error.tone(10),
            background: core.n1.tone(99),
            on_background: core.n1.tone(10),
            surface: core.n1.tone(99),
            on_surface: core.n1.tone(10),
            surface_variant: core.n2.tone(90),
            on_surface_variant: core.n2.tone(30),
            outline: core.n2.tone(50),
            outline_variant: core.n2.tone(80),
            shadow: core.n1.tone(0),
            scrim: core.n1.tone(0),
            inverse_surface: core.n1.tone(20),
            inverse_on_surface: core.n1.tone(95),
            inverse_primary: core.a1.tone(80),
        }
    }

    /// Assembles the dark scheme of a core palette at the documented tone
    /// stops. Only the palettes' caches change; their hues and chromas are
    /// untouched.
    pub fn dark_from_core_palette(core: &mut CorePalette) -> (r: Scheme)
        requires
            core_ok(*old(core)),
        ensures
            core_ok(*final(core)),
            core_view(*final(core)) == core_view(*old(core)),
            spec_dark_scheme_ok(r, core_view(*old(core))),
    {
        Scheme {
            primary: core.a1.tone(80),
            on_primary: core.a1.tone(20),
            primary_container: core.a1.tone(30),
            on_primary_container: core.a1.tone(90),
            secondary: core.a2.tone(80),
            on_secondary: core.a2.tone(20),
            secondary_container: core.a2.tone(30),
            on_secondary_container: core.a2.tone(90),
            tertiary: core.a3.tone(80),
            on_tertiary: core.a3.tone(20),
            tertiary_container: core.a3.tone(30),
            on_tertiary_container: core.a3.tone(90),
            error: core.error.tone(80),
            on_error: core.error.tone(20),
            error_container: core.error.tone(30),
            on_error_container: core.error.tone(90),
            background: core.n1.tone(10),
            on_background: core.n1.tone(90),
            surface: core.n1.tone(10),
            on_surface: core.n1.tone(90),
            surface_variant: core.n2.tone(30),
            on_surface_variant: core.n2.tone(80),
            outline: core.n2.tone(60),
            outline_variant: core.n2.tone(30),
            shadow: core.n1.tone(0),
            scrim: core.n1.tone(0),
            inverse_surface: core.n1.tone(90),
            inverse_on_surface: core.n1.tone(20),
            inverse_primary: core.a1.tone(40),
        }
    }
}

} // verus!
