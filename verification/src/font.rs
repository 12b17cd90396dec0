//! The shared font resource: one process-wide text shaping engine behind a
//! reader/writer lock.
//!
//! Constructing the shaping engine is expensive (font enumeration, fallback
//! resolution), so one instance is built at application startup and shared
//! through cloned handles; a handle is cloned, never reconstructed, so the
//! engine is constructed at most once. Queries that do not mutate engine
//! state take the shared `read` handle; any mutation (loading fonts, shaping
//! or measuring text) takes the exclusive `write` handle.

use vstd::prelude::*;
use std::sync::Arc;

verus! {

#[verifier::external_type_specification]
#[verifier::external_body]
pub struct ExFontSystem(glyphon::FontSystem);

#[verifier::external_type_specification]
#[verifier::external_body]
pub struct ExRawRwLock(parking_lot::RawRwLock);

#[verifier::external_type_specification]
#[verifier::external_body]
#[verifier::reject_recursive_types(R)]
#[verifier::reject_recursive_types(T)]
pub struct ExRwLock<R, T: ?Sized>(parking_lot::lock_api::RwLock<R, T>);

/// A shared, non-exclusive handle to the shaping engine, released on drop.
/// The guard type itself is opaque: Verus refuses the declaration of
/// parking_lot's guard because its generics carry an outside trait bound, so
/// the guard is held in a hidden field instead.
#[verifier::external_body]
pub struct FontReadGuard<'a> {
    guard: parking_lot::RwLockReadGuard<'a, glyphon::FontSystem>,
}

/// An exclusive handle to the shaping engine, released on drop. Opaque for
/// the same reason as `FontReadGuard`.
#[verifier::external_body]
pub struct FontWriteGuard<'a> {
    pub(crate) guard: parking_lot::RwLockWriteGuard<'a, glyphon::FontSystem>,
}

impl<'a> FontReadGuard<'a> {
    /// Relies on lock_api::RwLockReadGuard's Deref: the shared view of the
    /// engine behind the held guard, for measurement-only queries.
    #[verifier::external_body]
    pub fn engine(&self) -> &glyphon::FontSystem {
        &self.guard
    }
}

impl<'a> FontWriteGuard<'a> {
    /// Relies on lock_api::RwLockWriteGuard's DerefMut: the exclusive view
    /// of the engine behind the held guard.
    #[verifier::external_body]
    pub fn engine_mut(&mut self) -> &mut glyphon::FontSystem {
        &mut self.guard
    }
}

/// The family name the engine's font database uses for a sans-serif
/// fallback. A name for what the engine stores: each family is one stored
/// string, a function of the engine value alone, and the setter wrappers
/// below say which call sets which family and preserves the others.
pub uninterp spec fn stored_sans_serif(fs: glyphon::FontSystem) -> Seq<char>;

/// The stored serif fallback family name.
pub uninterp spec fn stored_serif(fs: glyphon::FontSystem) -> Seq<char>;

/// The stored monospace fallback family name.
pub uninterp spec fn stored_monospace(fs: glyphon::FontSystem) -> Seq<char>;

/// The stored cursive fallback family name.
pub uninterp spec fn stored_cursive(fs: glyphon::FontSystem) -> Seq<char>;

/// The stored fantasy fallback family name.
pub uninterp spec fn stored_fantasy(fs: glyphon::FontSystem) -> Seq<char>;

/// A shared handle to the process-wide shaping engine. Cloning the handle
/// shares the one engine instance; it never builds a second one.
#[derive(Clone)]
pub struct FontResource {
    handle: Arc<parking_lot::RwLock<glyphon::FontSystem>>,
}

/// Relies on glyphon::FontSystem::new: builds a shaping engine using the
/// engine's built-in font discovery, with no explicit family overrides.
#[verifier::external_body]
fn font_system_new() -> glyphon::FontSystem {
    glyphon::FontSystem::new()
}

/// Relies on fontdb::Database::load_fonts_dir (via FontSystem::db_mut):
/// loads every font found under the given directory into the database.
#[verifier::external_body]
fn load_fonts_dir(fs: &mut glyphon::FontSystem, dir: &str) {
    fs.db_mut().load_fonts_dir(dir)
}

/// Relies on fontdb::Database::set_sans_serif_family: assigns exactly the
/// stored sans-serif family string and touches no other family.
#[verifier::external_body]
fn set_sans_serif_family(fs: &mut glyphon::FontSystem, family: &str)
    ensures
        stored_sans_serif(*final(fs)) == family@,
        stored_serif(*final(fs)) == stored_serif(*old(fs)),
        stored_monospace(*final(fs)) == stored_monospace(*old(fs)),
        stored_cursive(*final(fs)) == stored_cursive(*old(fs)),
        stored_fantasy(*final(fs)) == stored_fantasy(*old(fs)),
{
    fs.db_mut().set_sans_serif_family(family.to_string())
}

/// Relies on fontdb::Database::set_serif_family: assigns exactly the stored
/// serif family string and touches no other family.
#[verifier::external_body]
fn set_serif_family(fs: &mut glyphon::FontSystem, family: &str)
    ensures
        stored_serif(*final(fs)) == family@,
        stored_sans_serif(*final(fs)) == stored_sans_serif(*old(fs)),
        stored_monospace(*final(fs)) == stored_monospace(*old(fs)),
        stored_cursive(*final(fs)) == stored_cursive(*old(fs)),
        stored_fantasy(*final(fs)) == stored_fantasy(*old(fs)),
{
    fs.db_mut().set_serif_family(family.to_string())
}

/// Relies on fontdb::Database::set_monospace_family: assigns exactly the
/// stored monospace family string and touches no other family.
#[verifier::external_body]
fn set_monospace_family(fs: &mut glyphon::FontSystem, family: &str)
    ensures
        stored_monospace(*final(fs)) == family@,
        stored_sans_serif(*final(fs)) == stored_sans_serif(*old(fs)),
        stored_serif(*final(fs)) == stored_serif(*old(fs)),
        stored_cursive(*final(fs)) == stored_cursive(*old(fs)),
        stored_fantasy(*final(fs)) == stored_fantasy(*old(fs)),
{
    fs.db_mut().set_monospace_family(family.to_string())
}

/// Relies on fontdb::Database::set_cursive_family: assigns exactly the
/// stored cursive family string and touches no other family.
#[verifier::external_body]
fn set_cursive_family(fs: &mut glyphon::FontSystem, family: &str)
    ensures
        stored_cursive(*final(fs)) == family@,
        stored_sans_serif(*final(fs)) == stored_sans_serif(*old(fs)),
        stored_serif(*final(fs)) == stored_serif(*old(fs)),
        stored_monospace(*final(fs)) == stored_monospace(*old(fs)),
        stored_fantasy(*final(fs)) == stored_fantasy(*old(fs)),
{
    fs.db_mut().set_cursive_family(family.to_string())
}

/// Relies on fontdb::Database::set_fantasy_family: assigns exactly the
/// stored fantasy family string and touches no other family.
#[verifier::external_body]
fn set_fantasy_family(fs: &mut glyphon::FontSystem, family: &str)
    ensures
        stored_fantasy(*final(fs)) == family@,
        stored_sans_serif(*final(fs)) == stored_sans_serif(*old(fs)),
        stored_serif(*final(fs)) == stored_serif(*old(fs)),
        stored_monospace(*final(fs)) == stored_monospace(*old(fs)),
        stored_cursive(*final(fs)) == stored_cursive(*old(fs)),
{
    fs.db_mut().set_fantasy_family(family.to_string())
}

/// Sets the five generic family fallbacks to the given platform-provided
/// font names: the whole embedded configuration, stated over the stored
/// family names.
pub fn configure_family_fallbacks(
    fs: &mut glyphon::FontSystem,
    sans_serif: &str,
    serif: &str,
    monospace: &str,
    cursive: &str,
    fantasy: &str,
)
    ensures
        stored_sans_serif(*final(fs)) == sans_serif@,
        stored_serif(*final(fs)) == serif@,
        stored_monospace(*final(fs)) == monospace@,
        stored_cursive(*final(fs)) == cursive@,
        stored_fantasy(*final(fs)) == fantasy@,
{
    set_sans_serif_family(fs, sans_serif);
    set_serif_family(fs, serif);
    set_monospace_family(fs, monospace);
    set_cursive_family(fs, cursive);
    set_fantasy_family(fs, fantasy);
}

/// Relies on lock_api::RwLock::new and std::sync::Arc::new: moves the engine
/// behind a fresh reader/writer lock and hands out the first shared handle.
#[verifier::external_body]
fn resource_from_system(fs: glyphon::FontSystem) -> FontResource {
    FontResource { handle: Arc::new(parking_lot::RwLock::new(fs)) }
}

impl FontResource {
    /// Builds the engine with the general/desktop initialization policy: the
    /// shaping engine's own default discovery, no explicit overrides.
    pub fn new_desktop() -> FontResource {
        resource_from_system(font_system_new())
    }

    /// Builds the engine with the embedded/mobile initialization policy:
    /// load the platform's font directory, then set the five generic family
    /// fallbacks to platform-provided font names. The configuration contract
    /// lives on `configure_family_fallbacks`: once the engine moves behind
    /// the shared lock its state is interior-mutable and no clause about it
    /// would stay true, so the handle itself carries none.
    pub fn new_embedded(
        fonts_dir: &str,
        sans_serif: &str,
        serif: &str,
        monospace: &str,
        cursive: &str,
        fantasy: &str,
    ) -> FontResource {
        let mut fs = font_system_new();
        load_fonts_dir(&mut fs, fonts_dir);
        configure_family_fallbacks(&mut fs, sans_serif, serif, monospace, cursive, fantasy);
        proof {
            assert(stored_sans_serif(fs) == sans_serif@);
            assert(stored_serif(fs) == serif@);
            assert(stored_monospace(fs) == monospace@);
            assert(stored_cursive(fs) == cursive@);
            assert(stored_fantasy(fs) == fantasy@);
        }
        resource_from_system(fs)
    }

    /// Relies on lock_api::RwLock::read: a shared, non-exclusive handle; any
    /// number of readers may hold it at once, and it blocks only behind an
    /// active writer.
    #[verifier::external_body]
    pub fn read(&self) -> FontReadGuard<'_> {
        FontReadGuard { guard: self.handle.read() }
    }

    /// Relies on lock_api::RwLock::write: the exclusive handle; it blocks
    /// until no reader or writer holds the resource, and while held it keeps
    /// every other reader and writer out.
    #[verifier::external_body]
    pub fn write(&self) -> FontWriteGuard<'_> {
        FontWriteGuard { guard: self.handle.write() }
    }
}

} // verus!
