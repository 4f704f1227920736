//! The instance extensions: a list of flags, one per instance extension that this
//! library knows, and a set of instance extension names that may hold names the
//! library does not know.
use vstd::prelude::*;

use crate::known::{
    bracketed_list, chosen, chosen_names, flags_and, flags_and_not, lemma_chosen_and,
    lemma_chosen_and_not, lemma_chosen_at, lemma_chosen_members, lemma_chosen_none,
    lemma_selected_names, list_text, selected, KnownExtensions,
};
use crate::name_set::{
    already_or_is, lemma_name_set_push, name_set, names_distinct, ref_views, string_views,
    ExtensionNames,
};
use crate::{lemma_unbuildable_unique, unbuildable_value, Unbuildable};
use vstd::std_specs::cmp::PartialEqSpec;
use vstd::std_specs::convert::FromSpec;
use vstd::std_specs::iter::IteratorSpec;

verus! {

/// List of instance extensions that are enabled or available: one flag per
/// instance extension that this library knows.
#[derive(Copy, Clone)]
pub struct InstanceExtensions {
    /// `VK_KHR_surface`.
    pub khr_surface: bool,
    /// `VK_KHR_display`.
    pub khr_display: bool,
    /// `VK_KHR_xlib_surface`.
    pub khr_xlib_surface: bool,
    /// `VK_KHR_xcb_surface`.
    pub khr_xcb_surface: bool,
    /// `VK_KHR_wayland_surface`.
    pub khr_wayland_surface: bool,
    /// `VK_KHR_mir_surface`.
    pub khr_mir_surface: bool,
    /// `VK_KHR_android_surface`.
    pub khr_android_surface: bool,
    /// `VK_KHR_win32_surface`.
    pub khr_win32_surface: bool,
    /// `VK_EXT_debug_report`.
    pub ext_debug_report: bool,
    /// `VK_MVK_ios_surface`.
    pub mvk_ios_surface: bool,
    /// `VK_MVK_macos_surface`.
    pub mvk_macos_surface: bool,
    /// `VK_MVK_moltenvk`.
    pub mvk_moltenvk: bool,
    /// `VK_NN_vi_surface`.
    pub nn_vi_surface: bool,
    /// `VK_EXT_swapchain_colorspace`.
    pub ext_swapchain_colorspace: bool,
    /// `VK_KHR_get_physical_device_properties2`.
    pub khr_get_physical_device_properties2: bool,
    /// Makes sure that a value of this struct can only be created through
    /// this library and the struct update syntax, so that extensions can be
    /// added without breaking code that builds such values.
    pub _unbuildable: Unbuildable,
}

/// The name of the known instance extension at position `i`, in the order of
/// the fields of `InstanceExtensions`.
pub open spec fn known_instance_name_at(i: int) -> Seq<char> {
    if i < 7 {
        if i < 3 {
            if i < 1 {
                "VK_KHR_surface"@
            } else {
                if i < 2 {
                    "VK_KHR_display"@
                } else {
                    "VK_KHR_xlib_surface"@
                }
            }
        } else {
            if i < 5 {
                if i < 4 {
                    "VK_KHR_xcb_surface"@
                } else {
                    "VK_KHR_wayland_surface"@
                }
            } else {
                if i < 6 {
                    "VK_KHR_mir_surface"@
                } else {
                    "VK_KHR_android_surface"@
                }
            }
        }
    } else {
        if i < 11 {
            if i < 9 {
                if i < 8 {
                    "VK_KHR_win32_surface"@
                } else {
                    "VK_EXT_debug_report"@
                }
            } else {
                if i < 10 {
                    "VK_MVK_ios_surface"@
                } else {
                    "VK_MVK_macos_surface"@
                }
            }
        } else {
            if i < 13 {
                if i < 12 {
                    "VK_MVK_moltenvk"@
                } else {
                    "VK_NN_vi_surface"@
                }
            } else {
                if i < 14 {
                    "VK_EXT_swapchain_colorspace"@
                } else {
                    "VK_KHR_get_physical_device_properties2"@
                }
            }
        }
    }
}

/// The names of the known instance extensions, in the order of the fields of
/// `InstanceExtensions`.
pub open spec fn known_instance_names() -> Seq<Seq<char>> {
    Seq::new(15, |i: int| known_instance_name_at(i))
}

/// The names of the instance extensions that this library knows.
pub open spec fn known_instance_extensions() -> Set<Seq<char>> {
    name_set(known_instance_names())
}

/// The position of `s` among the known instance extension names, or -1.
spec fn instance_name_position(s: Seq<char>) -> int {
    if s == "VK_KHR_surface"@ {
        0
    } else if s == "VK_KHR_display"@ {
        1
    } else if s == "VK_KHR_xlib_surface"@ {
        2
    } else if s == "VK_KHR_xcb_surface"@ {
        3
    } else if s == "VK_KHR_wayland_surface"@ {
        4
    } else if s == "VK_KHR_mir_surface"@ {
        5
    } else if s == "VK_KHR_android_surface"@ {
        6
    } else if s == "VK_KHR_win32_surface"@ {
        7
    } else if s == "VK_EXT_debug_report"@ {
        8
    } else if s == "VK_MVK_ios_surface"@ {
        9
    } else if s == "VK_MVK_macos_surface"@ {
        10
    } else if s == "VK_MVK_moltenvk"@ {
        11
    } else if s == "VK_NN_vi_surface"@ {
        12
    } else if s == "VK_EXT_swapchain_colorspace"@ {
        13
    } else if s == "VK_KHR_get_physical_device_properties2"@ {
        14
    } else {
        -1
    }
}

/// No name is listed twice among the known instance extensions.
pub proof fn lemma_known_instance_names_distinct()
    ensures
        names_distinct(known_instance_names()),
{
    broadcast use vstd::string::group_string_axioms;

    reveal_strlit("VK_KHR_surface");
    reveal_strlit("VK_KHR_display");
    reveal_strlit("VK_KHR_xlib_surface");
    reveal_strlit("VK_KHR_xcb_surface");
    reveal_strlit("VK_KHR_wayland_surface");
    reveal_strlit("VK_KHR_mir_surface");
    reveal_strlit("VK_KHR_android_surface");
    reveal_strlit("VK_KHR_win32_surface");
    reveal_strlit("VK_EXT_debug_report");
    reveal_strlit("VK_MVK_ios_surface");
    reveal_strlit("VK_MVK_macos_surface");
    reveal_strlit("VK_MVK_moltenvk");
    reveal_strlit("VK_NN_vi_surface");
    reveal_strlit("VK_EXT_swapchain_colorspace");
    reveal_strlit("VK_KHR_get_physical_device_properties2");
    assert("VK_KHR_surface"@.len() == 14);
    assert("VK_KHR_surface"@[7] == 's');
    assert("VK_KHR_display"@.len() == 14);
    assert("VK_KHR_display"@[7] == 'd');
    assert("VK_KHR_xlib_surface"@.len() == 19);
    assert("VK_KHR_xlib_surface"@[7] == 'x');
    assert("VK_KHR_xcb_surface"@.len() == 18);
    assert("VK_KHR_xcb_surface"@[7] == 'x');
    assert("VK_KHR_wayland_surface"@.len() == 22);
    assert("VK_KHR_wayland_surface"@[7] == 'w');
    assert("VK_KHR_mir_surface"@.len() == 18);
    assert("VK_KHR_mir_surface"@[7] == 'm');
    assert("VK_KHR_android_surface"@.len() == 22);
    assert("VK_KHR_android_surface"@[7] == 'a');
    assert("VK_KHR_win32_surface"@.len() == 20);
    assert("VK_KHR_win32_surface"@[7] == 'w');
    assert("VK_EXT_debug_report"@.len() == 19);
    assert("VK_EXT_debug_report"@[7] == 'd');
    assert("VK_MVK_ios_surface"@.len() == 18);
    assert("VK_MVK_ios_surface"@[7] == 'i');
    assert("VK_MVK_macos_surface"@.len() == 20);
    assert("VK_MVK_macos_surface"@[7] == 'm');
    assert("VK_MVK_moltenvk"@.len() == 15);
    assert("VK_MVK_moltenvk"@[7] == 'm');
    assert("VK_NN_vi_surface"@.len() == 16);
    assert("VK_NN_vi_surface"@[7] == 'i');
    assert("VK_EXT_swapchain_colorspace"@.len() == 27);
    assert("VK_EXT_swapchain_colorspace"@[7] == 's');
    assert("VK_KHR_get_physical_device_properties2"@.len() == 38);
    assert("VK_KHR_get_physical_device_properties2"@[7] == 'g');
    let names = known_instance_names();
    assert forall|i: int| 0 <= i < 15 implies #[trigger] instance_name_position(names[i]) == i by {
        assert(0 <= i < 15 ==> (i == 0 || i == 1 || i == 2 || i == 3 || i == 4 || i == 5 || i == 6 || i == 7
            || i == 8 || i == 9 || i == 10 || i == 11 || i == 12 || i == 13 || i == 14));
    }
}

/// The list with every flag off.
pub open spec fn no_instance_extensions() -> InstanceExtensions {
    InstanceExtensions {
        khr_surface: false,
        khr_display: false,
        khr_xlib_surface: false,
        khr_xcb_surface: false,
        khr_wayland_surface: false,
        khr_mir_surface: false,
        khr_android_surface: false,
        khr_win32_surface: false,
        ext_debug_report: false,
        mvk_ios_surface: false,
        mvk_macos_surface: false,
        mvk_moltenvk: false,
        nn_vi_surface: false,
        ext_swapchain_colorspace: false,
        khr_get_physical_device_properties2: false,
        _unbuildable: unbuildable_value(),
    }
}

impl View for InstanceExtensions {
    type V = Seq<bool>;

    /// The flags, in the order of the fields.
    open spec fn view(&self) -> Seq<bool> {
        Seq::new(15, |i: int| self.flag_at(i))
    }
}

impl InstanceExtensions {
    /// The flag of the field at position `i`.
    pub open spec fn flag_at(self, i: int) -> bool {
        if i < 7 {
            if i < 3 {
                if i < 1 {
                    self.khr_surface
                } else {
                    if i < 2 {
                        self.khr_display
                    } else {
                        self.khr_xlib_surface
                    }
                }
            } else {
                if i < 5 {
                    if i < 4 {
                        self.khr_xcb_surface
                    } else {
                        self.khr_wayland_surface
                    }
                } else {
                    if i < 6 {
                        self.khr_mir_surface
                    } else {
                        self.khr_android_surface
                    }
                }
            }
        } else {
            if i < 11 {
                if i < 9 {
                    if i < 8 {
                        self.khr_win32_surface
                    } else {
                        self.ext_debug_report
                    }
                } else {
                    if i < 10 {
                        self.mvk_ios_surface
                    } else {
                        self.mvk_macos_surface
                    }
                }
            } else {
                if i < 13 {
                    if i < 12 {
                        self.mvk_moltenvk
                    } else {
                        self.nn_vi_surface
                    }
                } else {
                    if i < 14 {
                        self.ext_swapchain_colorspace
                    } else {
                        self.khr_get_physical_device_properties2
                    }
                }
            }
        }
    }

    /// The list whose flag is on exactly where it is on in both `self` and
    /// `other`.
    pub open spec fn both(self, other: Self) -> Self {
        InstanceExtensions {
            khr_surface: self.khr_surface && other.khr_surface,
            khr_display: self.khr_display && other.khr_display,
            khr_xlib_surface: self.khr_xlib_surface && other.khr_xlib_surface,
            khr_xcb_surface: self.khr_xcb_surface && other.khr_xcb_surface,
            khr_wayland_surface: self.khr_wayland_surface && other.khr_wayland_surface,
            khr_mir_surface: self.khr_mir_surface && other.khr_mir_surface,
            khr_android_surface: self.khr_android_surface && other.khr_android_surface,
            khr_win32_surface: self.khr_win32_surface && other.khr_win32_surface,
            ext_debug_report: self.ext_debug_report && other.ext_debug_report,
            mvk_ios_surface: self.mvk_ios_surface && other.mvk_ios_surface,
            mvk_macos_surface: self.mvk_macos_surface && other.mvk_macos_surface,
            mvk_moltenvk: self.mvk_moltenvk && other.mvk_moltenvk,
            nn_vi_surface: self.nn_vi_surface && other.nn_vi_surface,
            ext_swapchain_colorspace: self.ext_swapchain_colorspace && other.ext_swapchain_colorspace,
            khr_get_physical_device_properties2: self.khr_get_physical_device_properties2 && other.khr_get_physical_device_properties2,
            _unbuildable: unbuildable_value(),
        }
    }

    /// The list whose flag is on exactly where it is on in `self` and off in
    /// `other`.
    pub open spec fn only_first(self, other: Self) -> Self {
        InstanceExtensions {
            khr_surface: self.khr_surface && !other.khr_surface,
            khr_display: self.khr_display && !other.khr_display,
            khr_xlib_surface: self.khr_xlib_surface && !other.khr_xlib_surface,
            khr_xcb_surface: self.khr_xcb_surface && !other.khr_xcb_surface,
            khr_wayland_surface: self.khr_wayland_surface && !other.khr_wayland_surface,
            khr_mir_surface: self.khr_mir_surface && !other.khr_mir_surface,
            khr_android_surface: self.khr_android_surface && !other.khr_android_surface,
            khr_win32_surface: self.khr_win32_surface && !other.khr_win32_surface,
            ext_debug_report: self.ext_debug_report && !other.ext_debug_report,
            mvk_ios_surface: self.mvk_ios_surface && !other.mvk_ios_surface,
            mvk_macos_surface: self.mvk_macos_surface && !other.mvk_macos_surface,
            mvk_moltenvk: self.mvk_moltenvk && !other.mvk_moltenvk,
            nn_vi_surface: self.nn_vi_surface && !other.nn_vi_surface,
            ext_swapchain_colorspace: self.ext_swapchain_colorspace && !other.ext_swapchain_colorspace,
            khr_get_physical_device_properties2: self.khr_get_physical_device_properties2 && !other.khr_get_physical_device_properties2,
            _unbuildable: unbuildable_value(),
        }
    }

    /// The list whose flag is on exactly where its name is in `names`.
    pub open spec fn with_names(names: Set<Seq<char>>) -> Self {
        InstanceExtensions {
            khr_surface: names.contains("VK_KHR_surface"@),
            khr_display: names.contains("VK_KHR_display"@),
            khr_xlib_surface: names.contains("VK_KHR_xlib_surface"@),
            khr_xcb_surface: names.contains("VK_KHR_xcb_surface"@),
            khr_wayland_surface: names.contains("VK_KHR_wayland_surface"@),
            khr_mir_surface: names.contains("VK_KHR_mir_surface"@),
            khr_android_surface: names.contains("VK_KHR_android_surface"@),
            khr_win32_surface: names.contains("VK_KHR_win32_surface"@),
            ext_debug_report: names.contains("VK_EXT_debug_report"@),
            mvk_ios_surface: names.contains("VK_MVK_ios_surface"@),
            mvk_macos_surface: names.contains("VK_MVK_macos_surface"@),
            mvk_moltenvk: names.contains("VK_MVK_moltenvk"@),
            nn_vi_surface: names.contains("VK_NN_vi_surface"@),
            ext_swapchain_colorspace: names.contains("VK_EXT_swapchain_colorspace"@),
            khr_get_physical_device_properties2: names.contains("VK_KHR_get_physical_device_properties2"@),
            _unbuildable: unbuildable_value(),
        }
    }

    /// The names of the extensions whose flag is on.
    pub open spec fn enabled_names(self) -> Set<Seq<char>> {
        chosen(known_instance_names(), self@)
    }

    /// The names of the extensions whose flag is on, in the order of the
    /// fields.
    pub open spec fn enabled_list(self) -> Seq<Seq<char>> {
        selected(known_instance_names(), self@)
    }

    /// Returns a list with every flag set to `false`.
    pub fn none() -> (e: Self)
        ensures
            e == no_instance_extensions(),
    {
        InstanceExtensions {
            khr_surface: false,
            khr_display: false,
            khr_xlib_surface: false,
            khr_xcb_surface: false,
            khr_wayland_surface: false,
            khr_mir_surface: false,
            khr_android_surface: false,
            khr_win32_surface: false,
            ext_debug_report: false,
            mvk_ios_surface: false,
            mvk_macos_surface: false,
            mvk_moltenvk: false,
            nn_vi_surface: false,
            ext_swapchain_colorspace: false,
            khr_get_physical_device_properties2: false,
            _unbuildable: Unbuildable::new(),
        }
    }

    /// Returns the intersection of this list and another list.
    pub fn intersection(&self, other: &InstanceExtensions) -> (r: Self)
        ensures
            r == self.both(*other),
    {
        InstanceExtensions {
            khr_surface: self.khr_surface && other.khr_surface,
            khr_display: self.khr_display && other.khr_display,
            khr_xlib_surface: self.khr_xlib_surface && other.khr_xlib_surface,
            khr_xcb_surface: self.khr_xcb_surface && other.khr_xcb_surface,
            khr_wayland_surface: self.khr_wayland_surface && other.khr_wayland_surface,
            khr_mir_surface: self.khr_mir_surface && other.khr_mir_surface,
            khr_android_surface: self.khr_android_surface && other.khr_android_surface,
            khr_win32_surface: self.khr_win32_surface && other.khr_win32_surface,
            ext_debug_report: self.ext_debug_report && other.ext_debug_report,
            mvk_ios_surface: self.mvk_ios_surface && other.mvk_ios_surface,
            mvk_macos_surface: self.mvk_macos_surface && other.mvk_macos_surface,
            mvk_moltenvk: self.mvk_moltenvk && other.mvk_moltenvk,
            nn_vi_surface: self.nn_vi_surface && other.nn_vi_surface,
            ext_swapchain_colorspace: self.ext_swapchain_colorspace && other.ext_swapchain_colorspace,
            khr_get_physical_device_properties2: self.khr_get_physical_device_properties2 && other.khr_get_physical_device_properties2,
            _unbuildable: Unbuildable::new(),
        }
    }

    /// Returns the difference of another list from this list.
    pub fn difference(&self, other: &InstanceExtensions) -> (r: Self)
        ensures
            r == self.only_first(*other),
    {
        InstanceExtensions {
            khr_surface: self.khr_surface && !other.khr_surface,
            khr_display: self.khr_display && !other.khr_display,
            khr_xlib_surface: self.khr_xlib_surface && !other.khr_xlib_surface,
            khr_xcb_surface: self.khr_xcb_surface && !other.khr_xcb_surface,
            khr_wayland_surface: self.khr_wayland_surface && !other.khr_wayland_surface,
            khr_mir_surface: self.khr_mir_surface && !other.khr_mir_surface,
            khr_android_surface: self.khr_android_surface && !other.khr_android_surface,
            khr_win32_surface: self.khr_win32_surface && !other.khr_win32_surface,
            ext_debug_report: self.ext_debug_report && !other.ext_debug_report,
            mvk_ios_surface: self.mvk_ios_surface && !other.mvk_ios_surface,
            mvk_macos_surface: self.mvk_macos_surface && !other.mvk_macos_surface,
            mvk_moltenvk: self.mvk_moltenvk && !other.mvk_moltenvk,
            nn_vi_surface: self.nn_vi_surface && !other.nn_vi_surface,
            ext_swapchain_colorspace: self.ext_swapchain_colorspace && !other.ext_swapchain_colorspace,
            khr_get_physical_device_properties2: self.khr_get_physical_device_properties2 && !other.khr_get_physical_device_properties2,
            _unbuildable: Unbuildable::new(),
        }
    }

    /// The names of the enabled extensions, in the order of the fields,
    /// separated by a comma and a space, between square brackets:
    /// `[VK_A, VK_B]`.
    pub fn debug_string(&self) -> (text: String)
        ensures
            text@ == bracketed_list(self.enabled_list()),
    {
        list_text(self)
    }

    /// The list of supported extensions, given the names that the driver
    /// reports: a flag is on exactly where its name occurs among `names`.
    pub fn from_supported_names(names: &Vec<String>) -> (r: Self)
        ensures
            r == Self::with_names(name_set(string_views(names@))),
    {
        let mut e = Self::none();
        let mut k: usize = 0;
        while k < names.len()
            invariant
                0 <= k <= names.len(),
                e == Self::with_names(name_set(string_views(names@).take(k as int))),
            decreases names.len() - k,
        {
            let ghost seen = string_views(names@).take(k as int);
            let name = &names[k];
            e = InstanceExtensions {
                khr_surface: already_or_is(e.khr_surface, name, "VK_KHR_surface"),
                khr_display: already_or_is(e.khr_display, name, "VK_KHR_display"),
                khr_xlib_surface: already_or_is(e.khr_xlib_surface, name, "VK_KHR_xlib_surface"),
                khr_xcb_surface: already_or_is(e.khr_xcb_surface, name, "VK_KHR_xcb_surface"),
                khr_wayland_surface: already_or_is(e.khr_wayland_surface, name, "VK_KHR_wayland_surface"),
                khr_mir_surface: already_or_is(e.khr_mir_surface, name, "VK_KHR_mir_surface"),
                khr_android_surface: already_or_is(e.khr_android_surface, name, "VK_KHR_android_surface"),
                khr_win32_surface: already_or_is(e.khr_win32_surface, name, "VK_KHR_win32_surface"),
                ext_debug_report: already_or_is(e.ext_debug_report, name, "VK_EXT_debug_report"),
                mvk_ios_surface: already_or_is(e.mvk_ios_surface, name, "VK_MVK_ios_surface"),
                mvk_macos_surface: already_or_is(e.mvk_macos_surface, name, "VK_MVK_macos_surface"),
                mvk_moltenvk: already_or_is(e.mvk_moltenvk, name, "VK_MVK_moltenvk"),
                nn_vi_surface: already_or_is(e.nn_vi_surface, name, "VK_NN_vi_surface"),
                ext_swapchain_colorspace: already_or_is(e.ext_swapchain_colorspace, name, "VK_EXT_swapchain_colorspace"),
                khr_get_physical_device_properties2: already_or_is(e.khr_get_physical_device_properties2, name, "VK_KHR_get_physical_device_properties2"),
                _unbuildable: e._unbuildable,
            };
            proof {
                assert(string_views(names@).take(k + 1) =~= seen.push(name@));
                lemma_name_set_push(seen, name@);
            }
            k += 1;
        }
        assert(string_views(names@).take(names.len() as int) =~= string_views(names@));
        e
    }
}

impl KnownExtensions for InstanceExtensions {
    open spec fn known_names() -> Seq<Seq<char>> {
        known_instance_names()
    }

    proof fn lemma_one_flag_per_name(&self) {
    }

    proof fn lemma_known_names_distinct() {
        lemma_known_instance_names_distinct();
    }

    fn known_count() -> (n: usize) {
        15
    }

    fn known_name(i: usize) -> (name: &'static str) {
        match i {
            0 => "VK_KHR_surface",
            1 => "VK_KHR_display",
            2 => "VK_KHR_xlib_surface",
            3 => "VK_KHR_xcb_surface",
            4 => "VK_KHR_wayland_surface",
            5 => "VK_KHR_mir_surface",
            6 => "VK_KHR_android_surface",
            7 => "VK_KHR_win32_surface",
            8 => "VK_EXT_debug_report",
            9 => "VK_MVK_ios_surface",
            10 => "VK_MVK_macos_surface",
            11 => "VK_MVK_moltenvk",
            12 => "VK_NN_vi_surface",
            13 => "VK_EXT_swapchain_colorspace",
            _ => "VK_KHR_get_physical_device_properties2",
        }
    }

    fn flag(&self, i: usize) -> (b: bool) {
        match i {
            0 => self.khr_surface,
            1 => self.khr_display,
            2 => self.khr_xlib_surface,
            3 => self.khr_xcb_surface,
            4 => self.khr_wayland_surface,
            5 => self.khr_mir_surface,
            6 => self.khr_android_surface,
            7 => self.khr_win32_surface,
            8 => self.ext_debug_report,
            9 => self.mvk_ios_surface,
            10 => self.mvk_macos_surface,
            11 => self.mvk_moltenvk,
            12 => self.nn_vi_surface,
            13 => self.ext_swapchain_colorspace,
            _ => self.khr_get_physical_device_properties2,
        }
    }
}

impl PartialEq for InstanceExtensions {
    fn eq(&self, other: &Self) -> (r: bool) {
        let r = self.khr_surface == other.khr_surface
            && self.khr_display == other.khr_display
            && self.khr_xlib_surface == other.khr_xlib_surface
            && self.khr_xcb_surface == other.khr_xcb_surface
            && self.khr_wayland_surface == other.khr_wayland_surface
            && self.khr_mir_surface == other.khr_mir_surface
            && self.khr_android_surface == other.khr_android_surface
            && self.khr_win32_surface == other.khr_win32_surface
            && self.ext_debug_report == other.ext_debug_report
            && self.mvk_ios_surface == other.mvk_ios_surface
            && self.mvk_macos_surface == other.mvk_macos_surface
            && self.mvk_moltenvk == other.mvk_moltenvk
            && self.nn_vi_surface == other.nn_vi_surface
            && self.ext_swapchain_colorspace == other.ext_swapchain_colorspace
            && self.khr_get_physical_device_properties2 == other.khr_get_physical_device_properties2
;
        proof {
            lemma_unbuildable_unique(self._unbuildable, other._unbuildable);
        }
        r
    }
}

impl Eq for InstanceExtensions {

}

impl vstd::std_specs::cmp::PartialEqSpecImpl for InstanceExtensions {
    open spec fn obeys_eq_spec() -> bool {
        true
    }

    open spec fn eq_spec(&self, other: &Self) -> bool {
        *self == *other
    }
}

/// Set of instance extensions, not restricted to those this library knows
/// about. This is useful when interacting with code whose extension
/// requirements are not known in advance.
pub struct RawInstanceExtensions(ExtensionNames);

impl View for RawInstanceExtensions {
    type V = Set<Seq<char>>;

    /// The names in the set.
    closed spec fn view(&self) -> Set<Seq<char>> {
        self.0@
    }
}

impl RawInstanceExtensions {
    /// Constructs an extension set containing the supplied extensions.
    pub fn new(extensions: Vec<String>) -> (r: Self)
        ensures
            r@ == name_set(string_views(extensions@)),
    {
        RawInstanceExtensions(ExtensionNames::from_vec(extensions))
    }

    /// Constructs an empty extension set.
    pub fn none() -> (r: Self)
        ensures
            r@ == Set::<Seq<char>>::empty(),
    {
        RawInstanceExtensions(ExtensionNames::empty())
    }

    /// Adds an extension to the set if it is not already present.
    pub fn insert(&mut self, extension: String)
        ensures
            final(self)@ == old(self)@.insert(extension@),
    {
        self.0.insert(extension);
    }

    /// Returns the intersection of this set and another.
    pub fn intersection(&self, other: &Self) -> (r: Self)
        ensures
            r@ == self@.intersect(other@),
    {
        RawInstanceExtensions(self.0.intersection(&other.0))
    }

    /// Returns the difference of another set from this one.
    pub fn difference(&self, other: &Self) -> (r: Self)
        ensures
            r@ == self@.difference(other@),
    {
        RawInstanceExtensions(self.0.difference(&other.0))
    }

    /// Returns the union of both extension sets.
    pub fn union(&self, other: &Self) -> (r: Self)
        ensures
            r@ == self@.union(other@),
    {
        RawInstanceExtensions(self.0.union(&other.0))
    }

    /// An iterator over the names in the set, each given once, in no
    /// particular order.
    pub fn iter(&self) -> (it: std::slice::Iter<'_, String>)
        ensures
            name_set(ref_views(it.remaining())) == self@,
            names_distinct(ref_views(it.remaining())),
    {
        self.0.iter()
    }
}

impl Clone for RawInstanceExtensions {
    fn clone(&self) -> (r: Self)
        ensures
            r@ == self@,
    {
        RawInstanceExtensions(self.0.duplicate())
    }
}

impl PartialEq for RawInstanceExtensions {
    fn eq(&self, other: &Self) -> (r: bool) {
        self.0.same_names(&other.0)
    }
}

impl Eq for RawInstanceExtensions {

}

impl vstd::std_specs::cmp::PartialEqSpecImpl for RawInstanceExtensions {
    open spec fn obeys_eq_spec() -> bool {
        true
    }

    open spec fn eq_spec(&self, other: &Self) -> bool {
        self@ == other@
    }
}

impl<'a> From<&'a InstanceExtensions> for RawInstanceExtensions {
    /// The names of the extensions whose flag is on.
    fn from(x: &'a InstanceExtensions) -> (r: Self)
        ensures
            r@ == x.enabled_names(),
    {
        RawInstanceExtensions(chosen_names(x))
    }
}

impl<'a> vstd::std_specs::convert::FromSpecImpl<&'a InstanceExtensions> for RawInstanceExtensions {
    /// The set is fixed by its names, not by the order in which it stores
    /// them; so no single value is promised, only its names (see `from`).
    open spec fn obeys_from_spec() -> bool {
        false
    }

    open spec fn from_spec(x: &'a InstanceExtensions) -> Self {
        choose|r: Self| r@ == x.enabled_names()
    }
}

impl<'a> From<&'a RawInstanceExtensions> for InstanceExtensions {
    /// A flag is on exactly where its name is in the set; the names that this
    /// library does not know are left out.
    fn from(x: &'a RawInstanceExtensions) -> (r: Self) {
        InstanceExtensions::from_supported_names(x.0.names())
    }
}

impl<'a> vstd::std_specs::convert::FromSpecImpl<&'a RawInstanceExtensions> for InstanceExtensions {
    open spec fn obeys_from_spec() -> bool {
        true
    }

    open spec fn from_spec(x: &'a RawInstanceExtensions) -> Self {
        InstanceExtensions::with_names(x@)
    }
}

/// Turning a list of flags into names and the names back into flags gives
/// the list back.
pub proof fn lemma_instance_names_round_trip(e: InstanceExtensions)
    ensures
        InstanceExtensions::with_names(e.enabled_names()) == e,
{
    let names = known_instance_names();
    lemma_known_instance_names_distinct();
    lemma_chosen_at(names, e@, 0);
    lemma_chosen_at(names, e@, 1);
    lemma_chosen_at(names, e@, 2);
    lemma_chosen_at(names, e@, 3);
    lemma_chosen_at(names, e@, 4);
    lemma_chosen_at(names, e@, 5);
    lemma_chosen_at(names, e@, 6);
    lemma_chosen_at(names, e@, 7);
    lemma_chosen_at(names, e@, 8);
    lemma_chosen_at(names, e@, 9);
    lemma_chosen_at(names, e@, 10);
    lemma_chosen_at(names, e@, 11);
    lemma_chosen_at(names, e@, 12);
    lemma_chosen_at(names, e@, 13);
    lemma_chosen_at(names, e@, 14);
    lemma_unbuildable_unique(e._unbuildable, unbuildable_value());
}

/// Turning a set of names into flags and the flags back into names keeps
/// exactly the names of the set that this library knows.
pub proof fn lemma_instance_flags_round_trip(names: Set<Seq<char>>)
    ensures
        InstanceExtensions::with_names(names).enabled_names() == names.intersect(known_instance_extensions()),
{
    let known = known_instance_names();
    let e = InstanceExtensions::with_names(names);
    assert forall|i: int| 0 <= i < 15 implies #[trigger] e@[i] == names.contains(known[i]) by {
        assert(0 <= i < 15 ==> (i == 0 || i == 1 || i == 2 || i == 3 || i == 4 || i == 5 || i == 6 || i == 7
            || i == 8 || i == 9 || i == 10 || i == 11 || i == 12 || i == 13 || i == 14));
    }
    assert(e@ =~= Seq::new(known.len(), |i: int| names.contains(known[i])));
    lemma_chosen_members(known, names);
}

/// The names of the intersection of two lists are the names that both
/// lists have.
pub proof fn lemma_instance_intersection_names(a: InstanceExtensions, b: InstanceExtensions)
    ensures
        a.both(b).enabled_names() == a.enabled_names().intersect(b.enabled_names()),
{
    lemma_known_instance_names_distinct();
    assert forall|i: int| 0 <= i < 15 implies #[trigger] a.both(b)@[i] == (a@[i] && b@[i]) by {
        assert(0 <= i < 15 ==> (i == 0 || i == 1 || i == 2 || i == 3 || i == 4 || i == 5 || i == 6 || i == 7
            || i == 8 || i == 9 || i == 10 || i == 11 || i == 12 || i == 13 || i == 14));
    }
    assert(a.both(b)@ =~= flags_and(a@, b@));
    lemma_chosen_and(known_instance_names(), a@, b@);
}

/// The names of the difference of two lists are the names of the first that
/// the second does not have.
pub proof fn lemma_instance_difference_names(a: InstanceExtensions, b: InstanceExtensions)
    ensures
        a.only_first(b).enabled_names() == a.enabled_names().difference(b.enabled_names()),
{
    lemma_known_instance_names_distinct();
    assert forall|i: int| 0 <= i < 15 implies #[trigger] a.only_first(b)@[i] == (a@[i] && !b@[i]) by {
        assert(0 <= i < 15 ==> (i == 0 || i == 1 || i == 2 || i == 3 || i == 4 || i == 5 || i == 6 || i == 7
            || i == 8 || i == 9 || i == 10 || i == 11 || i == 12 || i == 13 || i == 14));
    }
    assert(a.only_first(b)@ =~= flags_and_not(a@, b@));
    lemma_chosen_and_not(known_instance_names(), a@, b@);
}

/// The list with no flag on has no names.
pub proof fn lemma_instance_none_has_no_names()
    ensures
        no_instance_extensions().enabled_names() == Set::<Seq<char>>::empty(),
{
    let e = no_instance_extensions();
    assert forall|i: int| 0 <= i < 15 implies !(#[trigger] e@[i]) by {
        assert(0 <= i < 15 ==> (i == 0 || i == 1 || i == 2 || i == 3 || i == 4 || i == 5 || i == 6 || i == 7
            || i == 8 || i == 9 || i == 10 || i == 11 || i == 12 || i == 13 || i == 14));
    }
    lemma_chosen_none(known_instance_names(), e@);
}

/// Intersection does not depend on the order of its operands.
pub proof fn lemma_instance_intersection_commutes(a: InstanceExtensions, b: InstanceExtensions)
    ensures
        a.both(b) == b.both(a),
{
}

/// Intersection can be grouped either way.
pub proof fn lemma_instance_intersection_associates(a: InstanceExtensions, b: InstanceExtensions, c: InstanceExtensions)
    ensures
        a.both(b).both(c) == a.both(b.both(c)),
{
}

/// The intersection of a list with itself is the list.
pub proof fn lemma_instance_intersection_idempotent(a: InstanceExtensions)
    ensures
        a.both(a) == a,
{
    lemma_unbuildable_unique(a._unbuildable, unbuildable_value());
}

/// The intersection with the empty list is the empty list.
pub proof fn lemma_instance_intersection_with_none(a: InstanceExtensions)
    ensures
        a.both(no_instance_extensions()) == no_instance_extensions(),
{
}

/// Taking a list from itself leaves the empty list.
pub proof fn lemma_instance_difference_with_self(a: InstanceExtensions)
    ensures
        a.only_first(a) == no_instance_extensions(),
{
}

/// Taking the empty list from a list leaves the list.
pub proof fn lemma_instance_difference_with_none(a: InstanceExtensions)
    ensures
        a.only_first(no_instance_extensions()) == a,
{
    lemma_unbuildable_unique(a._unbuildable, unbuildable_value());
}

/// What is left after taking `b` away has nothing in common with `b`.
pub proof fn lemma_instance_difference_then_intersection(a: InstanceExtensions, b: InstanceExtensions)
    ensures
        a.only_first(b).both(b) == no_instance_extensions(),
{
}

/// The table of known names: the flag at each position is the field of that
/// position, and the name at that position is the name of that field's
/// extension.
pub proof fn lemma_instance_table(e: InstanceExtensions)
    ensures
        e@.len() == known_instance_names().len(),

        e@[0] == e.khr_surface,
        known_instance_names()[0] == "VK_KHR_surface"@,
        e@[1] == e.khr_display,
        known_instance_names()[1] == "VK_KHR_display"@,
        e@[2] == e.khr_xlib_surface,
        known_instance_names()[2] == "VK_KHR_xlib_surface"@,
        e@[3] == e.khr_xcb_surface,
        known_instance_names()[3] == "VK_KHR_xcb_surface"@,
        e@[4] == e.khr_wayland_surface,
        known_instance_names()[4] == "VK_KHR_wayland_surface"@,
        e@[5] == e.khr_mir_surface,
        known_instance_names()[5] == "VK_KHR_mir_surface"@,
        e@[6] == e.khr_android_surface,
        known_instance_names()[6] == "VK_KHR_android_surface"@,
        e@[7] == e.khr_win32_surface,
        known_instance_names()[7] == "VK_KHR_win32_surface"@,
        e@[8] == e.ext_debug_report,
        known_instance_names()[8] == "VK_EXT_debug_report"@,
        e@[9] == e.mvk_ios_surface,
        known_instance_names()[9] == "VK_MVK_ios_surface"@,
        e@[10] == e.mvk_macos_surface,
        known_instance_names()[10] == "VK_MVK_macos_surface"@,
        e@[11] == e.mvk_moltenvk,
        known_instance_names()[11] == "VK_MVK_moltenvk"@,
        e@[12] == e.nn_vi_surface,
        known_instance_names()[12] == "VK_NN_vi_surface"@,
        e@[13] == e.ext_swapchain_colorspace,
        known_instance_names()[13] == "VK_EXT_swapchain_colorspace"@,
        e@[14] == e.khr_get_physical_device_properties2,
        known_instance_names()[14] == "VK_KHR_get_physical_device_properties2"@,
{
}

/// The names of a list hold the name of each extension exactly where that
/// extension's flag is on.
pub proof fn lemma_instance_enabled_names_by_field(e: InstanceExtensions)
    ensures
        e.enabled_names().contains("VK_KHR_surface"@) == e.khr_surface,
        e.enabled_names().contains("VK_KHR_display"@) == e.khr_display,
        e.enabled_names().contains("VK_KHR_xlib_surface"@) == e.khr_xlib_surface,
        e.enabled_names().contains("VK_KHR_xcb_surface"@) == e.khr_xcb_surface,
        e.enabled_names().contains("VK_KHR_wayland_surface"@) == e.khr_wayland_surface,
        e.enabled_names().contains("VK_KHR_mir_surface"@) == e.khr_mir_surface,
        e.enabled_names().contains("VK_KHR_android_surface"@) == e.khr_android_surface,
        e.enabled_names().contains("VK_KHR_win32_surface"@) == e.khr_win32_surface,
        e.enabled_names().contains("VK_EXT_debug_report"@) == e.ext_debug_report,
        e.enabled_names().contains("VK_MVK_ios_surface"@) == e.mvk_ios_surface,
        e.enabled_names().contains("VK_MVK_macos_surface"@) == e.mvk_macos_surface,
        e.enabled_names().contains("VK_MVK_moltenvk"@) == e.mvk_moltenvk,
        e.enabled_names().contains("VK_NN_vi_surface"@) == e.nn_vi_surface,
        e.enabled_names().contains("VK_EXT_swapchain_colorspace"@) == e.ext_swapchain_colorspace,
        e.enabled_names().contains("VK_KHR_get_physical_device_properties2"@) == e.khr_get_physical_device_properties2,
{
    let names = known_instance_names();
    lemma_known_instance_names_distinct();
    lemma_instance_table(e);
    lemma_chosen_at(names, e@, 0);
    lemma_chosen_at(names, e@, 1);
    lemma_chosen_at(names, e@, 2);
    lemma_chosen_at(names, e@, 3);
    lemma_chosen_at(names, e@, 4);
    lemma_chosen_at(names, e@, 5);
    lemma_chosen_at(names, e@, 6);
    lemma_chosen_at(names, e@, 7);
    lemma_chosen_at(names, e@, 8);
    lemma_chosen_at(names, e@, 9);
    lemma_chosen_at(names, e@, 10);
    lemma_chosen_at(names, e@, 11);
    lemma_chosen_at(names, e@, 12);
    lemma_chosen_at(names, e@, 13);
    lemma_chosen_at(names, e@, 14);
}

/// Reading flags off a set of names turns on each extension exactly where
/// its name is in the set; this is what `from_supported_names` and the
/// conversion from a raw set give.
pub proof fn lemma_instance_with_names_by_field(names: Set<Seq<char>>)
    ensures
        InstanceExtensions::with_names(names).khr_surface == names.contains("VK_KHR_surface"@),
        InstanceExtensions::with_names(names).khr_display == names.contains("VK_KHR_display"@),
        InstanceExtensions::with_names(names).khr_xlib_surface == names.contains("VK_KHR_xlib_surface"@),
        InstanceExtensions::with_names(names).khr_xcb_surface == names.contains("VK_KHR_xcb_surface"@),
        InstanceExtensions::with_names(names).khr_wayland_surface == names.contains("VK_KHR_wayland_surface"@),
        InstanceExtensions::with_names(names).khr_mir_surface == names.contains("VK_KHR_mir_surface"@),
        InstanceExtensions::with_names(names).khr_android_surface == names.contains("VK_KHR_android_surface"@),
        InstanceExtensions::with_names(names).khr_win32_surface == names.contains("VK_KHR_win32_surface"@),
        InstanceExtensions::with_names(names).ext_debug_report == names.contains("VK_EXT_debug_report"@),
        InstanceExtensions::with_names(names).mvk_ios_surface == names.contains("VK_MVK_ios_surface"@),
        InstanceExtensions::with_names(names).mvk_macos_surface == names.contains("VK_MVK_macos_surface"@),
        InstanceExtensions::with_names(names).mvk_moltenvk == names.contains("VK_MVK_moltenvk"@),
        InstanceExtensions::with_names(names).nn_vi_surface == names.contains("VK_NN_vi_surface"@),
        InstanceExtensions::with_names(names).ext_swapchain_colorspace == names.contains("VK_EXT_swapchain_colorspace"@),
        InstanceExtensions::with_names(names).khr_get_physical_device_properties2 == names.contains("VK_KHR_get_physical_device_properties2"@),
{
}

/// Converting a raw set into flags turns on each extension exactly where its
/// name is in the set.
pub proof fn lemma_instance_from_raw_by_field(x: &RawInstanceExtensions)
    ensures
        from_raw_spec_instance(x).khr_surface == x@.contains("VK_KHR_surface"@),
        from_raw_spec_instance(x).khr_display == x@.contains("VK_KHR_display"@),
        from_raw_spec_instance(x).khr_xlib_surface == x@.contains("VK_KHR_xlib_surface"@),
        from_raw_spec_instance(x).khr_xcb_surface == x@.contains("VK_KHR_xcb_surface"@),
        from_raw_spec_instance(x).khr_wayland_surface == x@.contains("VK_KHR_wayland_surface"@),
        from_raw_spec_instance(x).khr_mir_surface == x@.contains("VK_KHR_mir_surface"@),
        from_raw_spec_instance(x).khr_android_surface == x@.contains("VK_KHR_android_surface"@),
        from_raw_spec_instance(x).khr_win32_surface == x@.contains("VK_KHR_win32_surface"@),
        from_raw_spec_instance(x).ext_debug_report == x@.contains("VK_EXT_debug_report"@),
        from_raw_spec_instance(x).mvk_ios_surface == x@.contains("VK_MVK_ios_surface"@),
        from_raw_spec_instance(x).mvk_macos_surface == x@.contains("VK_MVK_macos_surface"@),
        from_raw_spec_instance(x).mvk_moltenvk == x@.contains("VK_MVK_moltenvk"@),
        from_raw_spec_instance(x).nn_vi_surface == x@.contains("VK_NN_vi_surface"@),
        from_raw_spec_instance(x).ext_swapchain_colorspace == x@.contains("VK_EXT_swapchain_colorspace"@),
        from_raw_spec_instance(x).khr_get_physical_device_properties2 == x@.contains("VK_KHR_get_physical_device_properties2"@),
{
}

/// The text of a list names each enabled extension once, and no other.
pub proof fn lemma_instance_listed_names(e: InstanceExtensions)
    ensures
        name_set(e.enabled_list()) == e.enabled_names(),
        names_distinct(e.enabled_list()),
{
    lemma_known_instance_names_distinct();
    lemma_instance_table(e);
    lemma_selected_names(known_instance_names(), e@);
}

/// `==` on lists is equality of their values.
pub proof fn lemma_instance_eq_is_equality(a: InstanceExtensions, b: InstanceExtensions)
    ensures
        a.eq_spec(&b) == (a == b),
{
}

/// Two lists are equal exactly where every flag is the same.
#[verifier::spinoff_prover]
pub proof fn lemma_instance_eq_by_field(a: InstanceExtensions, b: InstanceExtensions)
    ensures
        (a == b) == (
            a.khr_surface == b.khr_surface
            && a.khr_display == b.khr_display
            && a.khr_xlib_surface == b.khr_xlib_surface
            && a.khr_xcb_surface == b.khr_xcb_surface
            && a.khr_wayland_surface == b.khr_wayland_surface
            && a.khr_mir_surface == b.khr_mir_surface
            && a.khr_android_surface == b.khr_android_surface
            && a.khr_win32_surface == b.khr_win32_surface
            && a.ext_debug_report == b.ext_debug_report
            && a.mvk_ios_surface == b.mvk_ios_surface
            && a.mvk_macos_surface == b.mvk_macos_surface
            && a.mvk_moltenvk == b.mvk_moltenvk
            && a.nn_vi_surface == b.nn_vi_surface
            && a.ext_swapchain_colorspace == b.ext_swapchain_colorspace
            && a.khr_get_physical_device_properties2 == b.khr_get_physical_device_properties2
        ),
{

    if a.khr_surface != b.khr_surface {
    } else
    if a.khr_display != b.khr_display {
    } else
    if a.khr_xlib_surface != b.khr_xlib_surface {
    } else
    if a.khr_xcb_surface != b.khr_xcb_surface {
    } else
    if a.khr_wayland_surface != b.khr_wayland_surface {
    } else
    if a.khr_mir_surface != b.khr_mir_surface {
    } else
    if a.khr_android_surface != b.khr_android_surface {
    } else
    if a.khr_win32_surface != b.khr_win32_surface {
    } else
    if a.ext_debug_report != b.ext_debug_report {
    } else
    if a.mvk_ios_surface != b.mvk_ios_surface {
    } else
    if a.mvk_macos_surface != b.mvk_macos_surface {
    } else
    if a.mvk_moltenvk != b.mvk_moltenvk {
    } else
    if a.nn_vi_surface != b.nn_vi_surface {
    } else
    if a.ext_swapchain_colorspace != b.ext_swapchain_colorspace {
    } else
    if a.khr_get_physical_device_properties2 != b.khr_get_physical_device_properties2 {
    } else
    {
        lemma_unbuildable_unique(a._unbuildable, b._unbuildable);
        assert(a == b);
    }
}

/// Two raw sets are equal exactly where they hold the same names; so
/// equality is symmetric.
pub proof fn lemma_raw_instance_eq(a: RawInstanceExtensions, b: RawInstanceExtensions)
    ensures
        a.eq_spec(&b) == (a@ == b@),
        a.eq_spec(&b) == b.eq_spec(&a),
{
}

/// What converting a raw set into flags gives.
pub open spec fn from_raw_spec_instance(x: &RawInstanceExtensions) -> InstanceExtensions {
    let r: InstanceExtensions = FromSpec::from_spec(x);
    r
}

} // verus!

