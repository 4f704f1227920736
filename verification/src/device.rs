//! The device extensions: a list of flags, one per device extension that this
//! library knows, and a set of device extension names that may hold names the
//! library does not know.
use vstd::prelude::*;

use crate::known::{
    bracketed_list, chosen, chosen_names, flags_and, flags_and_not, lemma_chosen_and,
    lemma_chosen_and_not, lemma_chosen_at, lemma_chosen_members, lemma_chosen_none,
    lemma_selected_names, list_text, selected, KnownExtensions,
};
use crate::name_set::{
    already_or_is, lemma_name_set_push, name_set, names_distinct, ref_views, string_views,
    ExtensionNames,
};
use crate::{lemma_unbuildable_unique, unbuildable_value, Unbuildable};
use vstd::std_specs::cmp::PartialEqSpec;
use vstd::std_specs::convert::FromSpec;
use vstd::std_specs::iter::IteratorSpec;

verus! {

/// List of device extensions that are enabled or available: one flag per
/// device extension that this library knows.
#[derive(Copy, Clone)]
pub struct DeviceExtensions {
    /// `VK_KHR_swapchain`.
    pub khr_swapchain: bool,
    /// `VK_KHR_display_swapchain`.
    pub khr_display_swapchain: bool,
    /// `VK_KHR_incremental_present`.
    pub khr_incremental_present: bool,
    /// `VK_EXT_debug_marker`.
    pub ext_debug_marker: bool,
    /// `VK_KHR_dedicated_allocation`.
    pub khr_dedicated_allocation: bool,
    /// `VK_KHR_get_memory_requirements2`.
    pub khr_get_memory_requirements2: bool,
    /// `VK_KHR_get_physical_device_properties2`.
    pub khr_get_physical_device_properties2: bool,
    /// `VK_KHR_maintenance1`.
    pub khr_maintenance1: bool,
    /// `VK_KHR_sampler_mirror_clamp_to_edge`.
    pub khr_sampler_mirror_clamp_to_edge: bool,
    /// `VK_KHR_maintenance2`.
    pub khr_maintenance2: bool,
    /// `VK_KHR_maintenance3`.
    pub khr_maintenance3: bool,
    /// `VK_KHR_multiview`.
    pub khr_multiview: bool,
    /// `VK_KHR_bind_memory2`.
    pub khr_bind_memory2: bool,
    /// `VK_KHR_descriptor_update_template`.
    pub khr_descriptor_update_template: bool,
    /// `VK_KHR_relaxed_block_layout`.
    pub khr_relaxed_block_layout: bool,
    /// `VK_KHR_shader_draw_parameters`.
    pub khr_shader_draw_parameters: bool,
    /// `VK_KHR_storage_buffer_storage_class`.
    pub khr_storage_buffer_storage_class: bool,
    /// `VK_KHR_variable_pointers`.
    pub khr_variable_pointers: bool,
    /// `VK_KHR_16bit_storage`.
    pub khr_16bit_storage: bool,
    /// `VK_EXT_depth_range_unrestricted`.
    pub ext_depth_range_unrestricted: bool,
    /// `VK_EXT_external_memory_host`.
    pub ext_external_memory_host: bool,
    /// `VK_EXT_global_priority`.
    pub ext_global_priority: bool,
    /// `VK_EXT_queue_family_foreign`.
    pub ext_queue_family_foreign: bool,
    /// `VK_EXT_sample_locations`.
    pub ext_sample_locations: bool,
    /// `VK_EXT_sampler_filter_minmax`.
    pub ext_sampler_filter_minmax: bool,
    /// `VK_EXT_shader_stencil_export`.
    pub ext_shader_stencil_export: bool,
    /// `VK_EXT_shader_subgroup_ballot`.
    pub ext_shader_subgroup_ballot: bool,
    /// `VK_EXT_shader_subgroup_vote`.
    pub ext_shader_subgroup_vote: bool,
    /// `VK_EXT_shader_viewport_index_layer`.
    pub ext_shader_viewport_index_layer: bool,
    /// `VK_AMD_buffer_marker`.
    pub amd_buffer_marker: bool,
    /// `VK_AMD_calibrated_timestamps`.
    pub amd_calibrated_timestamps: bool,
    /// `VK_AMD_draw_indirect_count`.
    pub amd_draw_indirect_count: bool,
    /// `VK_AMD_gcn_shader`.
    pub amd_gcn_shader: bool,
    /// `VK_AMD_gpa_interface`.
    pub amd_gpa_interface: bool,
    /// `VK_AMD_gpu_shader_half_float`.
    pub amd_gpu_shader_half_float: bool,
    /// `VK_AMD_gpu_shader_half_float_fetch`.
    pub amd_gpu_shader_half_float_fetch: bool,
    /// `VK_AMD_gpu_shader_int16`.
    pub amd_gpu_shader_int16: bool,
    /// `VK_AMD_mixed_attachment_samples`.
    pub amd_mixed_attachment_samples: bool,
    /// `VK_AMD_rasterization_order`.
    pub amd_rasterization_order: bool,
    /// `VK_AMD_shader_ballot`.
    pub amd_shader_ballot: bool,
    /// `VK_AMD_shader_core_properties`.
    pub amd_shader_core_properties: bool,
    /// `VK_AMD_shader_explicit_vertex_parameter`.
    pub amd_shader_explicit_vertex_parameter: bool,
    /// `VK_AMD_shader_fragment_mask`.
    pub amd_shader_fragment_mask: bool,
    /// `VK_AMD_shader_image_load_store_lod`.
    pub amd_shader_image_load_store_lod: bool,
    /// `VK_AMD_shader_info`.
    pub amd_shader_info: bool,
    /// `VK_AMD_shader_trinary_minmax`.
    pub amd_shader_trinary_minmax: bool,
    /// `VK_AMD_texture_gather_bias_lod`.
    pub amd_texture_gather_bias_lod: bool,
    /// `VK_AMD_wave_limits`.
    pub amd_wave_limits: bool,
    /// Makes sure that a value of this struct can only be created through
    /// this library and the struct update syntax, so that extensions can be
    /// added without breaking code that builds such values.
    pub _unbuildable: Unbuildable,
}

/// The name of the known device extension at position `i`, in the order of
/// the fields of `DeviceExtensions`.
pub open spec fn known_device_name_at(i: int) -> Seq<char> {
    if i < 24 {
        if i < 12 {
            if i < 6 {
                if i < 3 {
                    if i < 1 {
                        "VK_KHR_swapchain"@
                    } else {
                        if i < 2 {
                            "VK_KHR_display_swapchain"@
                        } else {
                            "VK_KHR_incremental_present"@
                        }
                    }
                } else {
                    if i < 4 {
                        "VK_EXT_debug_marker"@
                    } else {
                        if i < 5 {
                            "VK_KHR_dedicated_allocation"@
                        } else {
                            "VK_KHR_get_memory_requirements2"@
                        }
                    }
                }
            } else {
                if i < 9 {
                    if i < 7 {
                        "VK_KHR_get_physical_device_properties2"@
                    } else {
                        if i < 8 {
                            "VK_KHR_maintenance1"@
                        } else {
                            "VK_KHR_sampler_mirror_clamp_to_edge"@
                        }
                    }
                } else {
                    if i < 10 {
                        "VK_KHR_maintenance2"@
                    } else {
                        if i < 11 {
                            "VK_KHR_maintenance3"@
                        } else {
                            "VK_KHR_multiview"@
                        }
                    }
                }
            }
        } else {
            if i < 18 {
                if i < 15 {
                    if i < 13 {
                        "VK_KHR_bind_memory2"@
                    } else {
                        if i < 14 {
                            "VK_KHR_descriptor_update_template"@
                        } else {
                            "VK_KHR_relaxed_block_layout"@
                        }
                    }
                } else {
                    if i < 16 {
                        "VK_KHR_shader_draw_parameters"@
                    } else {
                        if i < 17 {
                            "VK_KHR_storage_buffer_storage_class"@
                        } else {
                            "VK_KHR_variable_pointers"@
                        }
                    }
                }
            } else {
                if i < 21 {
                    if i < 19 {
                        "VK_KHR_16bit_storage"@
                    } else {
                        if i < 20 {
                            "VK_EXT_depth_range_unrestricted"@
                        } else {
                            "VK_EXT_external_memory_host"@
                        }
                    }
                } else {
                    if i < 22 {
                        "VK_EXT_global_priority"@
                    } else {
                        if i < 23 {
                            "VK_EXT_queue_family_foreign"@
                        } else {
                            "VK_EXT_sample_locations"@
                        }
                    }
                }
            }
        }
    } else {
        if i < 36 {
            if i < 30 {
                if i < 27 {
                    if i < 25 {
                        "VK_EXT_sampler_filter_minmax"@
                    } else {
                        if i < 26 {
                            "VK_EXT_shader_stencil_export"@
                        } else {
                            "VK_EXT_shader_subgroup_ballot"@
                        }
                    }
                } else {
                    if i < 28 {
                        "VK_EXT_shader_subgroup_vote"@
                    } else {
                        if i < 29 {
                            "VK_EXT_shader_viewport_index_layer"@
                        } else {
                            "VK_AMD_buffer_marker"@
                        }
                    }
                }
            } else {
                if i < 33 {
                    if i < 31 {
                        "VK_AMD_calibrated_timestamps"@
                    } else {
                        if i < 32 {
                            "VK_AMD_draw_indirect_count"@
                        } else {
                            "VK_AMD_gcn_shader"@
                        }
                    }
                } else {
                    if i < 34 {
                        "VK_AMD_gpa_interface"@
                    } else {
                        if i < 35 {
                            "VK_AMD_gpu_shader_half_float"@
                        } else {
                            "VK_AMD_gpu_shader_half_float_fetch"@
                        }
                    }
                }
            }
        } else {
            if i < 42 {
                if i < 39 {
                    if i < 37 {
                        "VK_AMD_gpu_shader_int16"@
                    } else {
                        if i < 38 {
                            "VK_AMD_mixed_attachment_samples"@
                        } else {
                            "VK_AMD_rasterization_order"@
                        }
                    }
                } else {
                    if i < 40 {
                        "VK_AMD_shader_ballot"@
                    } else {
                        if i < 41 {
                            "VK_AMD_shader_core_properties"@
                        } else {
                            "VK_AMD_shader_explicit_vertex_parameter"@
                        }
                    }
                }
            } else {
                if i < 45 {
                    if i < 43 {
                        "VK_AMD_shader_fragment_mask"@
                    } else {
                        if i < 44 {
                            "VK_AMD_shader_image_load_store_lod"@
                        } else {
                            "VK_AMD_shader_info"@
                        }
                    }
                } else {
                    if i < 46 {
                        "VK_AMD_shader_trinary_minmax"@
                    } else {
                        if i < 47 {
                            "VK_AMD_texture_gather_bias_lod"@
                        } else {
                            "VK_AMD_wave_limits"@
                        }
                    }
                }
            }
        }
    }
}

/// The names of the known device extensions, in the order of the fields of
/// `DeviceExtensions`.
pub open spec fn known_device_names() -> Seq<Seq<char>> {
    Seq::new(48, |i: int| known_device_name_at(i))
}

/// The names of the device extensions that this library knows.
pub open spec fn known_device_extensions() -> Set<Seq<char>> {
    name_set(known_device_names())
}

/// The position of `s` among the known device extension names, or -1.
spec fn device_name_position(s: Seq<char>) -> int {
    if s == "VK_KHR_swapchain"@ {
        0
    } else if s == "VK_KHR_display_swapchain"@ {
        1
    } else if s == "VK_KHR_incremental_present"@ {
        2
    } else if s == "VK_EXT_debug_marker"@ {
        3
    } else if s == "VK_KHR_dedicated_allocation"@ {
        4
    } else if s == "VK_KHR_get_memory_requirements2"@ {
        5
    } else if s == "VK_KHR_get_physical_device_properties2"@ {
        6
    } else if s == "VK_KHR_maintenance1"@ {
        7
    } else if s == "VK_KHR_sampler_mirror_clamp_to_edge"@ {
        8
    } else if s == "VK_KHR_maintenance2"@ {
        9
    } else if s == "VK_KHR_maintenance3"@ {
        10
    } else if s == "VK_KHR_multiview"@ {
        11
    } else if s == "VK_KHR_bind_memory2"@ {
        12
    } else if s == "VK_KHR_descriptor_update_template"@ {
        13
    } else if s == "VK_KHR_relaxed_block_layout"@ {
        14
    } else if s == "VK_KHR_shader_draw_parameters"@ {
        15
    } else if s == "VK_KHR_storage_buffer_storage_class"@ {
        16
    } else if s == "VK_KHR_variable_pointers"@ {
        17
    } else if s == "VK_KHR_16bit_storage"@ {
        18
    } else if s == "VK_EXT_depth_range_unrestricted"@ {
        19
    } else if s == "VK_EXT_external_memory_host"@ {
        20
    } else if s == "VK_EXT_global_priority"@ {
        21
    } else if s == "VK_EXT_queue_family_foreign"@ {
        22
    } else if s == "VK_EXT_sample_locations"@ {
        23
    } else if s == "VK_EXT_sampler_filter_minmax"@ {
        24
    } else if s == "VK_EXT_shader_stencil_export"@ {
        25
    } else if s == "VK_EXT_shader_subgroup_ballot"@ {
        26
    } else if s == "VK_EXT_shader_subgroup_vote"@ {
        27
    } else if s == "VK_EXT_shader_viewport_index_layer"@ {
        28
    } else if s == "VK_AMD_buffer_marker"@ {
        29
    } else if s == "VK_AMD_calibrated_timestamps"@ {
        30
    } else if s == "VK_AMD_draw_indirect_count"@ {
        31
    } else if s == "VK_AMD_gcn_shader"@ {
        32
    } else if s == "VK_AMD_gpa_interface"@ {
        33
    } else if s == "VK_AMD_gpu_shader_half_float"@ {
        34
    } else if s == "VK_AMD_gpu_shader_half_float_fetch"@ {
        35
    } else if s == "VK_AMD_gpu_shader_int16"@ {
        36
    } else if s == "VK_AMD_mixed_attachment_samples"@ {
        37
    } else if s == "VK_AMD_rasterization_order"@ {
        38
    } else if s == "VK_AMD_shader_ballot"@ {
        39
    } else if s == "VK_AMD_shader_core_properties"@ {
        40
    } else if s == "VK_AMD_shader_explicit_vertex_parameter"@ {
        41
    } else if s == "VK_AMD_shader_fragment_mask"@ {
        42
    } else if s == "VK_AMD_shader_image_load_store_lod"@ {
        43
    } else if s == "VK_AMD_shader_info"@ {
        44
    } else if s == "VK_AMD_shader_trinary_minmax"@ {
        45
    } else if s == "VK_AMD_texture_gather_bias_lod"@ {
        46
    } else if s == "VK_AMD_wave_limits"@ {
        47
    } else {
        -1
    }
}

/// No name is listed twice among the known device extensions.
pub proof fn lemma_known_device_names_distinct()
    ensures
        names_distinct(known_device_names()),
{
    broadcast use vstd::string::group_string_axioms;

    reveal_strlit("VK_KHR_swapchain");
    reveal_strlit("VK_KHR_display_swapchain");
    reveal_strlit("VK_KHR_incremental_present");
    reveal_strlit("VK_EXT_debug_marker");
    reveal_strlit("VK_KHR_dedicated_allocation");
    reveal_strlit("VK_KHR_get_memory_requirements2");
    reveal_strlit("VK_KHR_get_physical_device_properties2");
    reveal_strlit("VK_KHR_maintenance1");
    reveal_strlit("VK_KHR_sampler_mirror_clamp_to_edge");
    reveal_strlit("VK_KHR_maintenance2");
    reveal_strlit("VK_KHR_maintenance3");
    reveal_strlit("VK_KHR_multiview");
    reveal_strlit("VK_KHR_bind_memory2");
    reveal_strlit("VK_KHR_descriptor_update_template");
    reveal_strlit("VK_KHR_relaxed_block_layout");
    reveal_strlit("VK_KHR_shader_draw_parameters");
    reveal_strlit("VK_KHR_storage_buffer_storage_class");
    reveal_strlit("VK_KHR_variable_pointers");
    reveal_strlit("VK_KHR_16bit_storage");
    reveal_strlit("VK_EXT_depth_range_unrestricted");
    reveal_strlit("VK_EXT_external_memory_host");
    reveal_strlit("VK_EXT_global_priority");
    reveal_strlit("VK_EXT_queue_family_foreign");
    reveal_strlit("VK_EXT_sample_locations");
    reveal_strlit("VK_EXT_sampler_filter_minmax");
    reveal_strlit("VK_EXT_shader_stencil_export");
    reveal_strlit("VK_EXT_shader_subgroup_ballot");
    reveal_strlit("VK_EXT_shader_subgroup_vote");
    reveal_strlit("VK_EXT_shader_viewport_index_layer");
    reveal_strlit("VK_AMD_buffer_marker");
    reveal_strlit("VK_AMD_calibrated_timestamps");
    reveal_strlit("VK_AMD_draw_indirect_count");
    reveal_strlit("VK_AMD_gcn_shader");
    reveal_strlit("VK_AMD_gpa_interface");
    reveal_strlit("VK_AMD_gpu_shader_half_float");
    reveal_strlit("VK_AMD_gpu_shader_half_float_fetch");
    reveal_strlit("VK_AMD_gpu_shader_int16");
    reveal_strlit("VK_AMD_mixed_attachment_samples");
    reveal_strlit("VK_AMD_rasterization_order");
    reveal_strlit("VK_AMD_shader_ballot");
    reveal_strlit("VK_AMD_shader_core_properties");
    reveal_strlit("VK_AMD_shader_explicit_vertex_parameter");
    reveal_strlit("VK_AMD_shader_fragment_mask");
    reveal_strlit("VK_AMD_shader_image_load_store_lod");
    reveal_strlit("VK_AMD_shader_info");
    reveal_strlit("VK_AMD_shader_trinary_minmax");
    reveal_strlit("VK_AMD_texture_gather_bias_lod");
    reveal_strlit("VK_AMD_wave_limits");
    assert("VK_KHR_swapchain"@.len() == 16);
    assert("VK_KHR_swapchain"@[15] == 'n');
    assert("VK_KHR_display_swapchain"@.len() == 24);
    assert("VK_KHR_display_swapchain"@[15] == 's');
    assert("VK_KHR_display_swapchain"@[18] == 'p');
    assert("VK_KHR_incremental_present"@.len() == 26);
    assert("VK_KHR_incremental_present"@[15] == 't');
    assert("VK_KHR_incremental_present"@[18] == '_');
    assert("VK_EXT_debug_marker"@.len() == 19);
    assert("VK_EXT_debug_marker"@[15] == 'r');
    assert("VK_EXT_debug_marker"@[18] == 'r');
    assert("VK_KHR_dedicated_allocation"@.len() == 27);
    assert("VK_KHR_dedicated_allocation"@[15] == 'd');
    assert("VK_KHR_dedicated_allocation"@[18] == 'l');
    assert("VK_KHR_get_memory_requirements2"@.len() == 31);
    assert("VK_KHR_get_memory_requirements2"@[15] == 'r');
    assert("VK_KHR_get_memory_requirements2"@[18] == 'r');
    assert("VK_KHR_get_physical_device_properties2"@.len() == 38);
    assert("VK_KHR_get_physical_device_properties2"@[15] == 'i');
    assert("VK_KHR_get_physical_device_properties2"@[18] == 'l');
    assert("VK_KHR_maintenance1"@.len() == 19);
    assert("VK_KHR_maintenance1"@[15] == 'n');
    assert("VK_KHR_maintenance1"@[18] == '1');
    assert("VK_KHR_sampler_mirror_clamp_to_edge"@.len() == 35);
    assert("VK_KHR_sampler_mirror_clamp_to_edge"@[15] == 'm');
    assert("VK_KHR_sampler_mirror_clamp_to_edge"@[18] == 'r');
    assert("VK_KHR_maintenance2"@.len() == 19);
    assert("VK_KHR_maintenance2"@[15] == 'n');
    assert("VK_KHR_maintenance2"@[18] == '2');
    assert("VK_KHR_maintenance3"@.len() == 19);
    assert("VK_KHR_maintenance3"@[15] == 'n');
    assert("VK_KHR_maintenance3"@[18] == '3');
    assert("VK_KHR_multiview"@.len() == 16);
    assert("VK_KHR_multiview"@[15] == 'w');
    assert("VK_KHR_bind_memory2"@.len() == 19);
    assert("VK_KHR_bind_memory2"@[15] == 'o');
    assert("VK_KHR_bind_memory2"@[18] == '2');
    assert("VK_KHR_descriptor_update_template"@.len() == 33);
    assert("VK_KHR_descriptor_update_template"@[15] == 'o');
    assert("VK_KHR_descriptor_update_template"@[18] == 'u');
    assert("VK_KHR_relaxed_block_layout"@.len() == 27);
    assert("VK_KHR_relaxed_block_layout"@[15] == 'b');
    assert("VK_KHR_relaxed_block_layout"@[18] == 'c');
    assert("VK_KHR_shader_draw_parameters"@.len() == 29);
    assert("VK_KHR_shader_draw_parameters"@[15] == 'r');
    assert("VK_KHR_shader_draw_parameters"@[18] == '_');
    assert("VK_KHR_storage_buffer_storage_class"@.len() == 35);
    assert("VK_KHR_storage_buffer_storage_class"@[15] == 'b');
    assert("VK_KHR_storage_buffer_storage_class"@[18] == 'f');
    assert("VK_KHR_variable_pointers"@.len() == 24);
    assert("VK_KHR_variable_pointers"@[15] == '_');
    assert("VK_KHR_variable_pointers"@[18] == 'i');
    assert("VK_KHR_16bit_storage"@.len() == 20);
    assert("VK_KHR_16bit_storage"@[15] == 'o');
    assert("VK_KHR_16bit_storage"@[18] == 'g');
    assert("VK_EXT_depth_range_unrestricted"@.len() == 31);
    assert("VK_EXT_depth_range_unrestricted"@[15] == 'n');
    assert("VK_EXT_depth_range_unrestricted"@[18] == '_');
    assert("VK_EXT_external_memory_host"@.len() == 27);
    assert("VK_EXT_external_memory_host"@[15] == '_');
    assert("VK_EXT_external_memory_host"@[18] == 'm');
    assert("VK_EXT_global_priority"@.len() == 22);
    assert("VK_EXT_global_priority"@[15] == 'r');
    assert("VK_EXT_global_priority"@[18] == 'r');
    assert("VK_EXT_queue_family_foreign"@.len() == 27);
    assert("VK_EXT_queue_family_foreign"@[15] == 'm');
    assert("VK_EXT_queue_family_foreign"@[18] == 'y');
    assert("VK_EXT_sample_locations"@.len() == 23);
    assert("VK_EXT_sample_locations"@[15] == 'o');
    assert("VK_EXT_sample_locations"@[18] == 't');
    assert("VK_EXT_sampler_filter_minmax"@.len() == 28);
    assert("VK_EXT_sampler_filter_minmax"@[15] == 'f');
    assert("VK_EXT_sampler_filter_minmax"@[18] == 't');
    assert("VK_EXT_shader_stencil_export"@.len() == 28);
    assert("VK_EXT_shader_stencil_export"@[15] == 't');
    assert("VK_EXT_shader_stencil_export"@[18] == 'c');
    assert("VK_EXT_shader_subgroup_ballot"@.len() == 29);
    assert("VK_EXT_shader_subgroup_ballot"@[15] == 'u');
    assert("VK_EXT_shader_subgroup_ballot"@[18] == 'r');
    assert("VK_EXT_shader_subgroup_vote"@.len() == 27);
    assert("VK_EXT_shader_subgroup_vote"@[15] == 'u');
    assert("VK_EXT_shader_subgroup_vote"@[18] == 'r');
    assert("VK_EXT_shader_viewport_index_layer"@.len() == 34);
    assert("VK_EXT_shader_viewport_index_layer"@[15] == 'i');
    assert("VK_EXT_shader_viewport_index_layer"@[18] == 'p');
    assert("VK_AMD_buffer_marker"@.len() == 20);
    assert("VK_AMD_buffer_marker"@[15] == 'a');
    assert("VK_AMD_buffer_marker"@[18] == 'e');
    assert("VK_AMD_calibrated_timestamps"@.len() == 28);
    assert("VK_AMD_calibrated_timestamps"@[15] == 'e');
    assert("VK_AMD_calibrated_timestamps"@[18] == 't');
    assert("VK_AMD_draw_indirect_count"@.len() == 26);
    assert("VK_AMD_draw_indirect_count"@[15] == 'i');
    assert("VK_AMD_draw_indirect_count"@[18] == 'c');
    assert("VK_AMD_gcn_shader"@.len() == 17);
    assert("VK_AMD_gcn_shader"@[15] == 'e');
    assert("VK_AMD_gpa_interface"@.len() == 20);
    assert("VK_AMD_gpa_interface"@[15] == 'r');
    assert("VK_AMD_gpa_interface"@[18] == 'c');
    assert("VK_AMD_gpu_shader_half_float"@.len() == 28);
    assert("VK_AMD_gpu_shader_half_float"@[15] == 'e');
    assert("VK_AMD_gpu_shader_half_float"@[18] == 'h');
    assert("VK_AMD_gpu_shader_half_float_fetch"@.len() == 34);
    assert("VK_AMD_gpu_shader_half_float_fetch"@[15] == 'e');
    assert("VK_AMD_gpu_shader_half_float_fetch"@[18] == 'h');
    assert("VK_AMD_gpu_shader_int16"@.len() == 23);
    assert("VK_AMD_gpu_shader_int16"@[15] == 'e');
    assert("VK_AMD_gpu_shader_int16"@[18] == 'i');
    assert("VK_AMD_mixed_attachment_samples"@.len() == 31);
    assert("VK_AMD_mixed_attachment_samples"@[15] == 't');
    assert("VK_AMD_mixed_attachment_samples"@[18] == 'h');
    assert("VK_AMD_rasterization_order"@.len() == 26);
    assert("VK_AMD_rasterization_order"@[15] == 'a');
    assert("VK_AMD_rasterization_order"@[18] == 'o');
    assert("VK_AMD_shader_ballot"@.len() == 20);
    assert("VK_AMD_shader_ballot"@[15] == 'a');
    assert("VK_AMD_shader_ballot"@[18] == 'o');
    assert("VK_AMD_shader_core_properties"@.len() == 29);
    assert("VK_AMD_shader_core_properties"@[15] == 'o');
    assert("VK_AMD_shader_core_properties"@[18] == '_');
    assert("VK_AMD_shader_explicit_vertex_parameter"@.len() == 39);
    assert("VK_AMD_shader_explicit_vertex_parameter"@[15] == 'x');
    assert("VK_AMD_shader_explicit_vertex_parameter"@[18] == 'i');
    assert("VK_AMD_shader_fragment_mask"@.len() == 27);
    assert("VK_AMD_shader_fragment_mask"@[15] == 'r');
    assert("VK_AMD_shader_fragment_mask"@[18] == 'm');
    assert("VK_AMD_shader_image_load_store_lod"@.len() == 34);
    assert("VK_AMD_shader_image_load_store_lod"@[15] == 'm');
    assert("VK_AMD_shader_image_load_store_lod"@[18] == 'e');
    assert("VK_AMD_shader_info"@.len() == 18);
    assert("VK_AMD_shader_info"@[15] == 'n');
    assert("VK_AMD_shader_trinary_minmax"@.len() == 28);
    assert("VK_AMD_shader_trinary_minmax"@[15] == 'r');
    assert("VK_AMD_shader_trinary_minmax"@[18] == 'a');
    assert("VK_AMD_texture_gather_bias_lod"@.len() == 30);
    assert("VK_AMD_texture_gather_bias_lod"@[15] == 'g');
    assert("VK_AMD_texture_gather_bias_lod"@[18] == 'h');
    assert("VK_AMD_wave_limits"@.len() == 18);
    assert("VK_AMD_wave_limits"@[15] == 'i');
    let names = known_device_names();
    assert forall|i: int| 0 <= i < 48 implies #[trigger] device_name_position(names[i]) == i by {
        assert(0 <= i < 48 ==> (i == 0 || i == 1 || i == 2 || i == 3 || i == 4 || i == 5 || i == 6 || i == 7
            || i == 8 || i == 9 || i == 10 || i == 11 || i == 12 || i == 13 || i == 14
            || i == 15 || i == 16 || i == 17 || i == 18 || i == 19 || i == 20 || i == 21
            || i == 22 || i == 23 || i == 24 || i == 25 || i == 26 || i == 27 || i == 28
            || i == 29 || i == 30 || i == 31 || i == 32 || i == 33 || i == 34 || i == 35
            || i == 36 || i == 37 || i == 38 || i == 39 || i == 40 || i == 41 || i == 42
            || i == 43 || i == 44 || i == 45 || i == 46 || i == 47));
    }
}

/// The list with every flag off.
pub open spec fn no_device_extensions() -> DeviceExtensions {
    DeviceExtensions {
        khr_swapchain: false,
        khr_display_swapchain: false,
        khr_incremental_present: false,
        ext_debug_marker: false,
        khr_dedicated_allocation: false,
        khr_get_memory_requirements2: false,
        khr_get_physical_device_properties2: false,
        khr_maintenance1: false,
        khr_sampler_mirror_clamp_to_edge: false,
        khr_maintenance2: false,
        khr_maintenance3: false,
        khr_multiview: false,
        khr_bind_memory2: false,
        khr_descriptor_update_template: false,
        khr_relaxed_block_layout: false,
        khr_shader_draw_parameters: false,
        khr_storage_buffer_storage_class: false,
        khr_variable_pointers: false,
        khr_16bit_storage: false,
        ext_depth_range_unrestricted: false,
        ext_external_memory_host: false,
        ext_global_priority: false,
        ext_queue_family_foreign: false,
        ext_sample_locations: false,
        ext_sampler_filter_minmax: false,
        ext_shader_stencil_export: false,
        ext_shader_subgroup_ballot: false,
        ext_shader_subgroup_vote: false,
        ext_shader_viewport_index_layer: false,
        amd_buffer_marker: false,
        amd_calibrated_timestamps: false,
        amd_draw_indirect_count: false,
        amd_gcn_shader: false,
        amd_gpa_interface: false,
        amd_gpu_shader_half_float: false,
        amd_gpu_shader_half_float_fetch: false,
        amd_gpu_shader_int16: false,
        amd_mixed_attachment_samples: false,
        amd_rasterization_order: false,
        amd_shader_ballot: false,
        amd_shader_core_properties: false,
        amd_shader_explicit_vertex_parameter: false,
        amd_shader_fragment_mask: false,
        amd_shader_image_load_store_lod: false,
        amd_shader_info: false,
        amd_shader_trinary_minmax: false,
        amd_texture_gather_bias_lod: false,
        amd_wave_limits: false,
        _unbuildable: unbuildable_value(),
    }
}

impl View for DeviceExtensions {
    type V = Seq<bool>;

    /// The flags, in the order of the fields.
    open spec fn view(&self) -> Seq<bool> {
        Seq::new(48, |i: int| self.flag_at(i))
    }
}

impl DeviceExtensions {
    /// The flag of the field at position `i`.
    pub open spec fn flag_at(self, i: int) -> bool {
        if i < 24 {
            if i < 12 {
                if i < 6 {
                    if i < 3 {
                        if i < 1 {
                            self.khr_swapchain
                        } else {
                            if i < 2 {
                                self.khr_display_swapchain
                            } else {
                                self.khr_incremental_present
                            }
                        }
                    } else {
                        if i < 4 {
                            self.ext_debug_marker
                        } else {
                            if i < 5 {
                                self.khr_dedicated_allocation
                            } else {
                                self.khr_get_memory_requirements2
                            }
                        }
                    }
                } else {
                    if i < 9 {
                        if i < 7 {
                            self.khr_get_physical_device_properties2
                        } else {
                            if i < 8 {
                                self.khr_maintenance1
                            } else {
                                self.khr_sampler_mirror_clamp_to_edge
                            }
                        }
                    } else {
                        if i < 10 {
                            self.khr_maintenance2
                        } else {
                            if i < 11 {
                                self.khr_maintenance3
                            } else {
                                self.khr_multiview
                            }
                        }
                    }
                }
            } else {
                if i < 18 {
                    if i < 15 {
                        if i < 13 {
                            self.khr_bind_memory2
                        } else {
                            if i < 14 {
                                self.khr_descriptor_update_template
                            } else {
                                self.khr_relaxed_block_layout
                            }
                        }
                    } else {
                        if i < 16 {
                            self.khr_shader_draw_parameters
                        } else {
                            if i < 17 {
                                self.khr_storage_buffer_storage_class
                            } else {
                                self.khr_variable_pointers
                            }
                        }
                    }
                } else {
                    if i < 21 {
                        if i < 19 {
                            self.khr_16bit_storage
                        } else {
                            if i < 20 {
                                self.ext_depth_range_unrestricted
                            } else {
                                self.ext_external_memory_host
                            }
                        }
                    } else {
                        if i < 22 {
                            self.ext_global_priority
                        } else {
                            if i < 23 {
                                self.ext_queue_family_foreign
                            } else {
                                self.ext_sample_locations
                            }
                        }
                    }
                }
            }
        } else {
            if i < 36 {
                if i < 30 {
                    if i < 27 {
                        if i < 25 {
                            self.ext_sampler_filter_minmax
                        } else {
                            if i < 26 {
                                self.ext_shader_stencil_export
                            } else {
                                self.ext_shader_subgroup_ballot
                            }
                        }
                    } else {
                        if i < 28 {
                            self.ext_shader_subgroup_vote
                        } else {
                            if i < 29 {
                                self.ext_shader_viewport_index_layer
                            } else {
                                self.amd_buffer_marker
                            }
                        }
                    }
                } else {
                    if i < 33 {
                        if i < 31 {
                            self.amd_calibrated_timestamps
                        } else {
                            if i < 32 {
                                self.amd_draw_indirect_count
                            } else {
                                self.amd_gcn_shader
                            }
                        }
                    } else {
                        if i < 34 {
                            self.amd_gpa_interface
                        } else {
                            if i < 35 {
                                self.amd_gpu_shader_half_float
                            } else {
                                self.amd_gpu_shader_half_float_fetch
                            }
                        }
                    }
                }
            } else {
                if i < 42 {
                    if i < 39 {
                        if i < 37 {
                            self.amd_gpu_shader_int16
                        } else {
                            if i < 38 {
                                self.amd_mixed_attachment_samples
                            } else {
                                self.amd_rasterization_order
                            }
                        }
                    } else {
                        if i < 40 {
                            self.amd_shader_ballot
                        } else {
                            if i < 41 {
                                self.amd_shader_core_properties
                            } else {
                                self.amd_shader_explicit_vertex_parameter
                            }
                        }
                    }
                } else {
                    if i < 45 {
                        if i < 43 {
                            self.amd_shader_fragment_mask
                        } else {
                            if i < 44 {
                                self.amd_shader_image_load_store_lod
                            } else {
                                self.amd_shader_info
                            }
                        }
                    } else {
                        if i < 46 {
                            self.amd_shader_trinary_minmax
                        } else {
                            if i < 47 {
                                self.amd_texture_gather_bias_lod
                            } else {
                                self.amd_wave_limits
                            }
                        }
                    }
                }
            }
        }
    }

    /// The list whose flag is on exactly where it is on in both `self` and
    /// `other`.
    pub open spec fn both(self, other: Self) -> Self {
        DeviceExtensions {
            khr_swapchain: self.khr_swapchain && other.khr_swapchain,
            khr_display_swapchain: self.khr_display_swapchain && other.khr_display_swapchain,
            khr_incremental_present: self.khr_incremental_present && other.khr_incremental_present,
            ext_debug_marker: self.ext_debug_marker && other.ext_debug_marker,
            khr_dedicated_allocation: self.khr_dedicated_allocation && other.khr_dedicated_allocation,
            khr_get_memory_requirements2: self.khr_get_memory_requirements2 && other.khr_get_memory_requirements2,
            khr_get_physical_device_properties2: self.khr_get_physical_device_properties2 && other.khr_get_physical_device_properties2,
            khr_maintenance1: self.khr_maintenance1 && other.khr_maintenance1,
            khr_sampler_mirror_clamp_to_edge: self.khr_sampler_mirror_clamp_to_edge && other.khr_sampler_mirror_clamp_to_edge,
            khr_maintenance2: self.khr_maintenance2 && other.khr_maintenance2,
            khr_maintenance3: self.khr_maintenance3 && other.khr_maintenance3,
            khr_multiview: self.khr_multiview && other.khr_multiview,
            khr_bind_memory2: self.khr_bind_memory2 && other.khr_bind_memory2,
            khr_descriptor_update_template: self.khr_descriptor_update_template && other.khr_descriptor_update_template,
            khr_relaxed_block_layout: self.khr_relaxed_block_layout && other.khr_relaxed_block_layout,
            khr_shader_draw_parameters: self.khr_shader_draw_parameters && other.khr_shader_draw_parameters,
            khr_storage_buffer_storage_class: self.khr_storage_buffer_storage_class && other.khr_storage_buffer_storage_class,
            khr_variable_pointers: self.khr_variable_pointers && other.khr_variable_pointers,
            khr_16bit_storage: self.khr_16bit_storage && other.khr_16bit_storage,
            ext_depth_range_unrestricted: self.ext_depth_range_unrestricted && other.ext_depth_range_unrestricted,
            ext_external_memory_host: self.ext_external_memory_host && other.ext_external_memory_host,
            ext_global_priority: self.ext_global_priority && other.ext_global_priority,
            ext_queue_family_foreign: self.ext_queue_family_foreign && other.ext_queue_family_foreign,
            ext_sample_locations: self.ext_sample_locations && other.ext_sample_locations,
            ext_sampler_filter_minmax: self.ext_sampler_filter_minmax && other.ext_sampler_filter_minmax,
            ext_shader_stencil_export: self.ext_shader_stencil_export && other.ext_shader_stencil_export,
            ext_shader_subgroup_ballot: self.ext_shader_subgroup_ballot && other.ext_shader_subgroup_ballot,
            ext_shader_subgroup_vote: self.ext_shader_subgroup_vote && other.ext_shader_subgroup_vote,
            ext_shader_viewport_index_layer: self.ext_shader_viewport_index_layer && other.ext_shader_viewport_index_layer,
            amd_buffer_marker: self.amd_buffer_marker && other.amd_buffer_marker,
            amd_calibrated_timestamps: self.amd_calibrated_timestamps && other.amd_calibrated_timestamps,
            amd_draw_indirect_count: self.amd_draw_indirect_count && other.amd_draw_indirect_count,
            amd_gcn_shader: self.amd_gcn_shader && other.amd_gcn_shader,
            amd_gpa_interface: self.amd_gpa_interface && other.amd_gpa_interface,
            amd_gpu_shader_half_float: self.amd_gpu_shader_half_float && other.amd_gpu_shader_half_float,
            amd_gpu_shader_half_float_fetch: self.amd_gpu_shader_half_float_fetch && other.amd_gpu_shader_half_float_fetch,
            amd_gpu_shader_int16: self.amd_gpu_shader_int16 && other.amd_gpu_shader_int16,
            amd_mixed_attachment_samples: self.amd_mixed_attachment_samples && other.amd_mixed_attachment_samples,
            amd_rasterization_order: self.amd_rasterization_order && other.amd_rasterization_order,
            amd_shader_ballot: self.amd_shader_ballot && other.amd_shader_ballot,
            amd_shader_core_properties: self.amd_shader_core_properties && other.amd_shader_core_properties,
            amd_shader_explicit_vertex_parameter: self.amd_shader_explicit_vertex_parameter && other.amd_shader_explicit_vertex_parameter,
            amd_shader_fragment_mask: self.amd_shader_fragment_mask && other.amd_shader_fragment_mask,
            amd_shader_image_load_store_lod: self.amd_shader_image_load_store_lod && other.amd_shader_image_load_store_lod,
            amd_shader_info: self.amd_shader_info && other.amd_shader_info,
            amd_shader_trinary_minmax: self.amd_shader_trinary_minmax && other.amd_shader_trinary_minmax,
            amd_texture_gather_bias_lod: self.amd_texture_gather_bias_lod && other.amd_texture_gather_bias_lod,
            amd_wave_limits: self.amd_wave_limits && other.amd_wave_limits,
            _unbuildable: unbuildable_value(),
        }
    }

    /// The list whose flag is on exactly where it is on in `self` and off in
    /// `other`.
    pub open spec fn only_first(self, other: Self) -> Self {
        DeviceExtensions {
            khr_swapchain: self.khr_swapchain && !other.khr_swapchain,
            khr_display_swapchain: self.khr_display_swapchain && !other.khr_display_swapchain,
            khr_incremental_present: self.khr_incremental_present && !other.khr_incremental_present,
            ext_debug_marker: self.ext_debug_marker && !other.ext_debug_marker,
            khr_dedicated_allocation: self.khr_dedicated_allocation && !other.khr_dedicated_allocation,
            khr_get_memory_requirements2: self.khr_get_memory_requirements2 && !other.khr_get_memory_requirements2,
            khr_get_physical_device_properties2: self.khr_get_physical_device_properties2 && !other.khr_get_physical_device_properties2,
            khr_maintenance1: self.khr_maintenance1 && !other.khr_maintenance1,
            khr_sampler_mirror_clamp_to_edge: self.khr_sampler_mirror_clamp_to_edge && !other.khr_sampler_mirror_clamp_to_edge,
            khr_maintenance2: self.khr_maintenance2 && !other.khr_maintenance2,
            khr_maintenance3: self.khr_maintenance3 && !other.khr_maintenance3,
            khr_multiview: self.khr_multiview && !other.khr_multiview,
            khr_bind_memory2: self.khr_bind_memory2 && !other.khr_bind_memory2,
            khr_descriptor_update_template: self.khr_descriptor_update_template && !other.khr_descriptor_update_template,
            khr_relaxed_block_layout: self.khr_relaxed_block_layout && !other.khr_relaxed_block_layout,
            khr_shader_draw_parameters: self.khr_shader_draw_parameters && !other.khr_shader_draw_parameters,
            khr_storage_buffer_storage_class: self.khr_storage_buffer_storage_class && !other.khr_storage_buffer_storage_class,
            khr_variable_pointers: self.khr_variable_pointers && !other.khr_variable_pointers,
            khr_16bit_storage: self.khr_16bit_storage && !other.khr_16bit_storage,
            ext_depth_range_unrestricted: self.ext_depth_range_unrestricted && !other.ext_depth_range_unrestricted,
            ext_external_memory_host: self.ext_external_memory_host && !other.ext_external_memory_host,
            ext_global_priority: self.ext_global_priority && !other.ext_global_priority,
            ext_queue_family_foreign: self.ext_queue_family_foreign && !other.ext_queue_family_foreign,
            ext_sample_locations: self.ext_sample_locations && !other.ext_sample_locations,
            ext_sampler_filter_minmax: self.ext_sampler_filter_minmax && !other.ext_sampler_filter_minmax,
            ext_shader_stencil_export: self.ext_shader_stencil_export && !other.ext_shader_stencil_export,
            ext_shader_subgroup_ballot: self.ext_shader_subgroup_ballot && !other.ext_shader_subgroup_ballot,
            ext_shader_subgroup_vote: self.ext_shader_subgroup_vote && !other.ext_shader_subgroup_vote,
            ext_shader_viewport_index_layer: self.ext_shader_viewport_index_layer && !other.ext_shader_viewport_index_layer,
            amd_buffer_marker: self.amd_buffer_marker && !other.amd_buffer_marker,
            amd_calibrated_timestamps: self.amd_calibrated_timestamps && !other.amd_calibrated_timestamps,
            amd_draw_indirect_count: self.amd_draw_indirect_count && !other.amd_draw_indirect_count,
            amd_gcn_shader: self.amd_gcn_shader && !other.amd_gcn_shader,
            amd_gpa_interface: self.amd_gpa_interface && !other.amd_gpa_interface,
            amd_gpu_shader_half_float: self.amd_gpu_shader_half_float && !other.amd_gpu_shader_half_float,
            amd_gpu_shader_half_float_fetch: self.amd_gpu_shader_half_float_fetch && !other.amd_gpu_shader_half_float_fetch,
            amd_gpu_shader_int16: self.amd_gpu_shader_int16 && !other.amd_gpu_shader_int16,
            amd_mixed_attachment_samples: self.amd_mixed_attachment_samples && !other.amd_mixed_attachment_samples,
            amd_rasterization_order: self.amd_rasterization_order && !other.amd_rasterization_order,
            amd_shader_ballot: self.amd_shader_ballot && !other.amd_shader_ballot,
            amd_shader_core_properties: self.amd_shader_core_properties && !other.amd_shader_core_properties,
            amd_shader_explicit_vertex_parameter: self.amd_shader_explicit_vertex_parameter && !other.amd_shader_explicit_vertex_parameter,
            amd_shader_fragment_mask: self.amd_shader_fragment_mask && !other.amd_shader_fragment_mask,
            amd_shader_image_load_store_lod: self.amd_shader_image_load_store_lod && !other.amd_shader_image_load_store_lod,
            amd_shader_info: self.amd_shader_info && !other.amd_shader_info,
            amd_shader_trinary_minmax: self.amd_shader_trinary_minmax && !other.amd_shader_trinary_minmax,
            amd_texture_gather_bias_lod: self.amd_texture_gather_bias_lod && !other.amd_texture_gather_bias_lod,
            amd_wave_limits: self.amd_wave_limits && !other.amd_wave_limits,
            _unbuildable: unbuildable_value(),
        }
    }

    /// The list whose flag is on exactly where its name is in `names`.
    pub open spec fn with_names(names: Set<Seq<char>>) -> Self {
        DeviceExtensions {
            khr_swapchain: names.contains("VK_KHR_swapchain"@),
            khr_display_swapchain: names.contains("VK_KHR_display_swapchain"@),
            khr_incremental_present: names.contains("VK_KHR_incremental_present"@),
            ext_debug_marker: names.contains("VK_EXT_debug_marker"@),
            khr_dedicated_allocation: names.contains("VK_KHR_dedicated_allocation"@),
            khr_get_memory_requirements2: names.contains("VK_KHR_get_memory_requirements2"@),
            khr_get_physical_device_properties2: names.contains("VK_KHR_get_physical_device_properties2"@),
            khr_maintenance1: names.contains("VK_KHR_maintenance1"@),
            khr_sampler_mirror_clamp_to_edge: names.contains("VK_KHR_sampler_mirror_clamp_to_edge"@),
            khr_maintenance2: names.contains("VK_KHR_maintenance2"@),
            khr_maintenance3: names.contains("VK_KHR_maintenance3"@),
            khr_multiview: names.contains("VK_KHR_multiview"@),
            khr_bind_memory2: names.contains("VK_KHR_bind_memory2"@),
            khr_descriptor_update_template: names.contains("VK_KHR_descriptor_update_template"@),
            khr_relaxed_block_layout: names.contains("VK_KHR_relaxed_block_layout"@),
            khr_shader_draw_parameters: names.contains("VK_KHR_shader_draw_parameters"@),
            khr_storage_buffer_storage_class: names.contains("VK_KHR_storage_buffer_storage_class"@),
            khr_variable_pointers: names.contains("VK_KHR_variable_pointers"@),
            khr_16bit_storage: names.contains("VK_KHR_16bit_storage"@),
            ext_depth_range_unrestricted: names.contains("VK_EXT_depth_range_unrestricted"@),
            ext_external_memory_host: names.contains("VK_EXT_external_memory_host"@),
            ext_global_priority: names.contains("VK_EXT_global_priority"@),
            ext_queue_family_foreign: names.contains("VK_EXT_queue_family_foreign"@),
            ext_sample_locations: names.contains("VK_EXT_sample_locations"@),
            ext_sampler_filter_minmax: names.contains("VK_EXT_sampler_filter_minmax"@),
            ext_shader_stencil_export: names.contains("VK_EXT_shader_stencil_export"@),
            ext_shader_subgroup_ballot: names.contains("VK_EXT_shader_subgroup_ballot"@),
            ext_shader_subgroup_vote: names.contains("VK_EXT_shader_subgroup_vote"@),
            ext_shader_viewport_index_layer: names.contains("VK_EXT_shader_viewport_index_layer"@),
            amd_buffer_marker: names.contains("VK_AMD_buffer_marker"@),
            amd_calibrated_timestamps: names.contains("VK_AMD_calibrated_timestamps"@),
            amd_draw_indirect_count: names.contains("VK_AMD_draw_indirect_count"@),
            amd_gcn_shader: names.contains("VK_AMD_gcn_shader"@),
            amd_gpa_interface: names.contains("VK_AMD_gpa_interface"@),
            amd_gpu_shader_half_float: names.contains("VK_AMD_gpu_shader_half_float"@),
            amd_gpu_shader_half_float_fetch: names.contains("VK_AMD_gpu_shader_half_float_fetch"@),
            amd_gpu_shader_int16: names.contains("VK_AMD_gpu_shader_int16"@),
            amd_mixed_attachment_samples: names.contains("VK_AMD_mixed_attachment_samples"@),
            amd_rasterization_order: names.contains("VK_AMD_rasterization_order"@),
            amd_shader_ballot: names.contains("VK_AMD_shader_ballot"@),
            amd_shader_core_properties: names.contains("VK_AMD_shader_core_properties"@),
            amd_shader_explicit_vertex_parameter: names.contains("VK_AMD_shader_explicit_vertex_parameter"@),
            amd_shader_fragment_mask: names.contains("VK_AMD_shader_fragment_mask"@),
            amd_shader_image_load_store_lod: names.contains("VK_AMD_shader_image_load_store_lod"@),
            amd_shader_info: names.contains("VK_AMD_shader_info"@),
            amd_shader_trinary_minmax: names.contains("VK_AMD_shader_trinary_minmax"@),
            amd_texture_gather_bias_lod: names.contains("VK_AMD_texture_gather_bias_lod"@),
            amd_wave_limits: names.contains("VK_AMD_wave_limits"@),
            _unbuildable: unbuildable_value(),
        }
    }

    /// The names of the extensions whose flag is on.
    pub open spec fn enabled_names(self) -> Set<Seq<char>> {
        chosen(known_device_names(), self@)
    }

    /// The names of the extensions whose flag is on, in the order of the
    /// fields.
    pub open spec fn enabled_list(self) -> Seq<Seq<char>> {
        selected(known_device_names(), self@)
    }

    /// Returns a list with every flag set to `false`.
    pub fn none() -> (e: Self)
        ensures
            e == no_device_extensions(),
    {
        DeviceExtensions {
            khr_swapchain: false,
            khr_display_swapchain: false,
            khr_incremental_present: false,
            ext_debug_marker: false,
            khr_dedicated_allocation: false,
            khr_get_memory_requirements2: false,
            khr_get_physical_device_properties2: false,
            khr_maintenance1: false,
            khr_sampler_mirror_clamp_to_edge: false,
            khr_maintenance2: false,
            khr_maintenance3: false,
            khr_multiview: false,
            khr_bind_memory2: false,
            khr_descriptor_update_template: false,
            khr_relaxed_block_layout: false,
            khr_shader_draw_parameters: false,
            khr_storage_buffer_storage_class: false,
            khr_variable_pointers: false,
            khr_16bit_storage: false,
            ext_depth_range_unrestricted: false,
            ext_external_memory_host: false,
            ext_global_priority: false,
            ext_queue_family_foreign: false,
            ext_sample_locations: false,
            ext_sampler_filter_minmax: false,
            ext_shader_stencil_export: false,
            ext_shader_subgroup_ballot: false,
            ext_shader_subgroup_vote: false,
            ext_shader_viewport_index_layer: false,
            amd_buffer_marker: false,
            amd_calibrated_timestamps: false,
            amd_draw_indirect_count: false,
            amd_gcn_shader: false,
            amd_gpa_interface: false,
            amd_gpu_shader_half_float: false,
            amd_gpu_shader_half_float_fetch: false,
            amd_gpu_shader_int16: false,
            amd_mixed_attachment_samples: false,
            amd_rasterization_order: false,
            amd_shader_ballot: false,
            amd_shader_core_properties: false,
            amd_shader_explicit_vertex_parameter: false,
            amd_shader_fragment_mask: false,
            amd_shader_image_load_store_lod: false,
            amd_shader_info: false,
            amd_shader_trinary_minmax: false,
            amd_texture_gather_bias_lod: false,
            amd_wave_limits: false,
            _unbuildable: Unbuildable::new(),
        }
    }

    /// Returns the intersection of this list and another list.
    pub fn intersection(&self, other: &DeviceExtensions) -> (r: Self)
        ensures
            r == self.both(*other),
    {
        DeviceExtensions {
            khr_swapchain: self.khr_swapchain && other.khr_swapchain,
            khr_display_swapchain: self.khr_display_swapchain && other.khr_display_swapchain,
            khr_incremental_present: self.khr_incremental_present && other.khr_incremental_present,
            ext_debug_marker: self.ext_debug_marker && other.ext_debug_marker,
            khr_dedicated_allocation: self.khr_dedicated_allocation && other.khr_dedicated_allocation,
            khr_get_memory_requirements2: self.khr_get_memory_requirements2 && other.khr_get_memory_requirements2,
            khr_get_physical_device_properties2: self.khr_get_physical_device_properties2 && other.khr_get_physical_device_properties2,
            khr_maintenance1: self.khr_maintenance1 && other.khr_maintenance1,
            khr_sampler_mirror_clamp_to_edge: self.khr_sampler_mirror_clamp_to_edge && other.khr_sampler_mirror_clamp_to_edge,
            khr_maintenance2: self.khr_maintenance2 && other.khr_maintenance2,
            khr_maintenance3: self.khr_maintenance3 && other.khr_maintenance3,
            khr_multiview: self.khr_multiview && other.khr_multiview,
            khr_bind_memory2: self.khr_bind_memory2 && other.khr_bind_memory2,
            khr_descriptor_update_template: self.khr_descriptor_update_template && other.khr_descriptor_update_template,
            khr_relaxed_block_layout: self.khr_relaxed_block_layout && other.khr_relaxed_block_layout,
            khr_shader_draw_parameters: self.khr_shader_draw_parameters && other.khr_shader_draw_parameters,
            khr_storage_buffer_storage_class: self.khr_storage_buffer_storage_class && other.khr_storage_buffer_storage_class,
            khr_variable_pointers: self.khr_variable_pointers && other.khr_variable_pointers,
            khr_16bit_storage: self.khr_16bit_storage && other.khr_16bit_storage,
            ext_depth_range_unrestricted: self.ext_depth_range_unrestricted && other.ext_depth_range_unrestricted,
            ext_external_memory_host: self.ext_external_memory_host && other.ext_external_memory_host,
            ext_global_priority: self.ext_global_priority && other.ext_global_priority,
            ext_queue_family_foreign: self.ext_queue_family_foreign && other.ext_queue_family_foreign,
            ext_sample_locations: self.ext_sample_locations && other.ext_sample_locations,
            ext_sampler_filter_minmax: self.ext_sampler_filter_minmax && other.ext_sampler_filter_minmax,
            ext_shader_stencil_export: self.ext_shader_stencil_export && other.ext_shader_stencil_export,
            ext_shader_subgroup_ballot: self.ext_shader_subgroup_ballot && other.ext_shader_subgroup_ballot,
            ext_shader_subgroup_vote: self.ext_shader_subgroup_vote && other.ext_shader_subgroup_vote,
            ext_shader_viewport_index_layer: self.ext_shader_viewport_index_layer && other.ext_shader_viewport_index_layer,
            amd_buffer_marker: self.amd_buffer_marker && other.amd_buffer_marker,
            amd_calibrated_timestamps: self.amd_calibrated_timestamps && other.amd_calibrated_timestamps,
            amd_draw_indirect_count: self.amd_draw_indirect_count && other.amd_draw_indirect_count,
            amd_gcn_shader: self.amd_gcn_shader && other.amd_gcn_shader,
            amd_gpa_interface: self.amd_gpa_interface && other.amd_gpa_interface,
            amd_gpu_shader_half_float: self.amd_gpu_shader_half_float && other.amd_gpu_shader_half_float,
            amd_gpu_shader_half_float_fetch: self.amd_gpu_shader_half_float_fetch && other.amd_gpu_shader_half_float_fetch,
            amd_gpu_shader_int16: self.amd_gpu_shader_int16 && other.amd_gpu_shader_int16,
            amd_mixed_attachment_samples: self.amd_mixed_attachment_samples && other.amd_mixed_attachment_samples,
            amd_rasterization_order: self.amd_rasterization_order && other.amd_rasterization_order,
            amd_shader_ballot: self.amd_shader_ballot && other.amd_shader_ballot,
            amd_shader_core_properties: self.amd_shader_core_properties && other.amd_shader_core_properties,
            amd_shader_explicit_vertex_parameter: self.amd_shader_explicit_vertex_parameter && other.amd_shader_explicit_vertex_parameter,
            amd_shader_fragment_mask: self.amd_shader_fragment_mask && other.amd_shader_fragment_mask,
            amd_shader_image_load_store_lod: self.amd_shader_image_load_store_lod && other.amd_shader_image_load_store_lod,
            amd_shader_info: self.amd_shader_info && other.amd_shader_info,
            amd_shader_trinary_minmax: self.amd_shader_trinary_minmax && other.amd_shader_trinary_minmax,
            amd_texture_gather_bias_lod: self.amd_texture_gather_bias_lod && other.amd_texture_gather_bias_lod,
            amd_wave_limits: self.amd_wave_limits && other.amd_wave_limits,
            _unbuildable: Unbuildable::new(),
        }
    }

    /// Returns the difference of another list from this list.
    pub fn difference(&self, other: &DeviceExtensions) -> (r: Self)
        ensures
            r == self.only_first(*other),
    {
        DeviceExtensions {
            khr_swapchain: self.khr_swapchain && !other.khr_swapchain,
            khr_display_swapchain: self.khr_display_swapchain && !other.khr_display_swapchain,
            khr_incremental_present: self.khr_incremental_present && !other.khr_incremental_present,
            ext_debug_marker: self.ext_debug_marker && !other.ext_debug_marker,
            khr_dedicated_allocation: self.khr_dedicated_allocation && !other.khr_dedicated_allocation,
            khr_get_memory_requirements2: self.khr_get_memory_requirements2 && !other.khr_get_memory_requirements2,
            khr_get_physical_device_properties2: self.khr_get_physical_device_properties2 && !other.khr_get_physical_device_properties2,
            khr_maintenance1: self.khr_maintenance1 && !other.khr_maintenance1,
            khr_sampler_mirror_clamp_to_edge: self.khr_sampler_mirror_clamp_to_edge && !other.khr_sampler_mirror_clamp_to_edge,
            khr_maintenance2: self.khr_maintenance2 && !other.khr_maintenance2,
            khr_maintenance3: self.khr_maintenance3 && !other.khr_maintenance3,
            khr_multiview: self.khr_multiview && !other.khr_multiview,
            khr_bind_memory2: self.khr_bind_memory2 && !other.khr_bind_memory2,
            khr_descriptor_update_template: self.khr_descriptor_update_template && !other.khr_descriptor_update_template,
            khr_relaxed_block_layout: self.khr_relaxed_block_layout && !other.khr_relaxed_block_layout,
            khr_shader_draw_parameters: self.khr_shader_draw_parameters && !other.khr_shader_draw_parameters,
            khr_storage_buffer_storage_class: self.khr_storage_buffer_storage_class && !other.khr_storage_buffer_storage_class,
            khr_variable_pointers: self.khr_variable_pointers && !other.khr_variable_pointers,
            khr_16bit_storage: self.khr_16bit_storage && !other.khr_16bit_storage,
            ext_depth_range_unrestricted: self.ext_depth_range_unrestricted && !other.ext_depth_range_unrestricted,
            ext_external_memory_host: self.ext_external_memory_host && !other.ext_external_memory_host,
            ext_global_priority: self.ext_global_priority && !other.ext_global_priority,
            ext_queue_family_foreign: self.ext_queue_family_foreign && !other.ext_queue_family_foreign,
            ext_sample_locations: self.ext_sample_locations && !other.ext_sample_locations,
            ext_sampler_filter_minmax: self.ext_sampler_filter_minmax && !other.ext_sampler_filter_minmax,
            ext_shader_stencil_export: self.ext_shader_stencil_export && !other.ext_shader_stencil_export,
            ext_shader_subgroup_ballot: self.ext_shader_subgroup_ballot && !other.ext_shader_subgroup_ballot,
            ext_shader_subgroup_vote: self.ext_shader_subgroup_vote && !other.ext_shader_subgroup_vote,
            ext_shader_viewport_index_layer: self.ext_shader_viewport_index_layer && !other.ext_shader_viewport_index_layer,
            amd_buffer_marker: self.amd_buffer_marker && !other.amd_buffer_marker,
            amd_calibrated_timestamps: self.amd_calibrated_timestamps && !other.amd_calibrated_timestamps,
            amd_draw_indirect_count: self.amd_draw_indirect_count && !other.amd_draw_indirect_count,
            amd_gcn_shader: self.amd_gcn_shader && !other.amd_gcn_shader,
            amd_gpa_interface: self.amd_gpa_interface && !other.amd_gpa_interface,
            amd_gpu_shader_half_float: self.amd_gpu_shader_half_float && !other.amd_gpu_shader_half_float,
            amd_gpu_shader_half_float_fetch: self.amd_gpu_shader_half_float_fetch && !other.amd_gpu_shader_half_float_fetch,
            amd_gpu_shader_int16: self.amd_gpu_shader_int16 && !other.amd_gpu_shader_int16,
            amd_mixed_attachment_samples: self.amd_mixed_attachment_samples && !other.amd_mixed_attachment_samples,
            amd_rasterization_order: self.amd_rasterization_order && !other.amd_rasterization_order,
            amd_shader_ballot: self.amd_shader_ballot && !other.amd_shader_ballot,
            amd_shader_core_properties: self.amd_shader_core_properties && !other.amd_shader_core_properties,
            amd_shader_explicit_vertex_parameter: self.amd_shader_explicit_vertex_parameter && !other.amd_shader_explicit_vertex_parameter,
            amd_shader_fragment_mask: self.amd_shader_fragment_mask && !other.amd_shader_fragment_mask,
            amd_shader_image_load_store_lod: self.amd_shader_image_load_store_lod && !other.amd_shader_image_load_store_lod,
            amd_shader_info: self.amd_shader_info && !other.amd_shader_info,
            amd_shader_trinary_minmax: self.amd_shader_trinary_minmax && !other.amd_shader_trinary_minmax,
            amd_texture_gather_bias_lod: self.amd_texture_gather_bias_lod && !other.amd_texture_gather_bias_lod,
            amd_wave_limits: self.amd_wave_limits && !other.amd_wave_limits,
            _unbuildable: Unbuildable::new(),
        }
    }

    /// The names of the enabled extensions, in the order of the fields,
    /// separated by a comma and a space, between square brackets:
    /// `[VK_A, VK_B]`.
    pub fn debug_string(&self) -> (text: String)
        ensures
            text@ == bracketed_list(self.enabled_list()),
    {
        list_text(self)
    }

    /// The list of supported extensions, given the names that the driver
    /// reports: a flag is on exactly where its name occurs among `names`.
    pub fn from_supported_names(names: &Vec<String>) -> (r: Self)
        ensures
            r == Self::with_names(name_set(string_views(names@))),
    {
        let mut e = Self::none();
        let mut k: usize = 0;
        while k < names.len()
            invariant
                0 <= k <= names.len(),
                e == Self::with_names(name_set(string_views(names@).take(k as int))),
            decreases names.len() - k,
        {
            let ghost seen = string_views(names@).take(k as int);
            let name = &names[k];
            e = DeviceExtensions {
                khr_swapchain: already_or_is(e.khr_swapchain, name, "VK_KHR_swapchain"),
                khr_display_swapchain: already_or_is(e.khr_display_swapchain, name, "VK_KHR_display_swapchain"),
                khr_incremental_present: already_or_is(e.khr_incremental_present, name, "VK_KHR_incremental_present"),
                ext_debug_marker: already_or_is(e.ext_debug_marker, name, "VK_EXT_debug_marker"),
                khr_dedicated_allocation: already_or_is(e.khr_dedicated_allocation, name, "VK_KHR_dedicated_allocation"),
                khr_get_memory_requirements2: already_or_is(e.khr_get_memory_requirements2, name, "VK_KHR_get_memory_requirements2"),
                khr_get_physical_device_properties2: already_or_is(e.khr_get_physical_device_properties2, name, "VK_KHR_get_physical_device_properties2"),
                khr_maintenance1: already_or_is(e.khr_maintenance1, name, "VK_KHR_maintenance1"),
                khr_sampler_mirror_clamp_to_edge: already_or_is(e.khr_sampler_mirror_clamp_to_edge, name, "VK_KHR_sampler_mirror_clamp_to_edge"),
                khr_maintenance2: already_or_is(e.khr_maintenance2, name, "VK_KHR_maintenance2"),
                khr_maintenance3: already_or_is(e.khr_maintenance3, name, "VK_KHR_maintenance3"),
                khr_multiview: already_or_is(e.khr_multiview, name, "VK_KHR_multiview"),
                khr_bind_memory2: already_or_is(e.khr_bind_memory2, name, "VK_KHR_bind_memory2"),
                khr_descriptor_update_template: already_or_is(e.khr_descriptor_update_template, name, "VK_KHR_descriptor_update_template"),
                khr_relaxed_block_layout: already_or_is(e.khr_relaxed_block_layout, name, "VK_KHR_relaxed_block_layout"),
                khr_shader_draw_parameters: already_or_is(e.khr_shader_draw_parameters, name, "VK_KHR_shader_draw_parameters"),
                khr_storage_buffer_storage_class: already_or_is(e.khr_storage_buffer_storage_class, name, "VK_KHR_storage_buffer_storage_class"),
                khr_variable_pointers: already_or_is(e.khr_variable_pointers, name, "VK_KHR_variable_pointers"),
                khr_16bit_storage: already_or_is(e.khr_16bit_storage, name, "VK_KHR_16bit_storage"),
                ext_depth_range_unrestricted: already_or_is(e.ext_depth_range_unrestricted, name, "VK_EXT_depth_range_unrestricted"),
                ext_external_memory_host: already_or_is(e.ext_external_memory_host, name, "VK_EXT_external_memory_host"),
                ext_global_priority: already_or_is(e.ext_global_priority, name, "VK_EXT_global_priority"),
                ext_queue_family_foreign: already_or_is(e.ext_queue_family_foreign, name, "VK_EXT_queue_family_foreign"),
                ext_sample_locations: already_or_is(e.ext_sample_locations, name, "VK_EXT_sample_locations"),
                ext_sampler_filter_minmax: already_or_is(e.ext_sampler_filter_minmax, name, "VK_EXT_sampler_filter_minmax"),
                ext_shader_stencil_export: already_or_is(e.ext_shader_stencil_export, name, "VK_EXT_shader_stencil_export"),
                ext_shader_subgroup_ballot: already_or_is(e.ext_shader_subgroup_ballot, name, "VK_EXT_shader_subgroup_ballot"),
                ext_shader_subgroup_vote: already_or_is(e.ext_shader_subgroup_vote, name, "VK_EXT_shader_subgroup_vote"),
                ext_shader_viewport_index_layer: already_or_is(e.ext_shader_viewport_index_layer, name, "VK_EXT_shader_viewport_index_layer"),
                amd_buffer_marker: already_or_is(e.amd_buffer_marker, name, "VK_AMD_buffer_marker"),
                amd_calibrated_timestamps: already_or_is(e.amd_calibrated_timestamps, name, "VK_AMD_calibrated_timestamps"),
                amd_draw_indirect_count: already_or_is(e.amd_draw_indirect_count, name, "VK_AMD_draw_indirect_count"),
                amd_gcn_shader: already_or_is(e.amd_gcn_shader, name, "VK_AMD_gcn_shader"),
                amd_gpa_interface: already_or_is(e.amd_gpa_interface, name, "VK_AMD_gpa_interface"),
                amd_gpu_shader_half_float: already_or_is(e.amd_gpu_shader_half_float, name, "VK_AMD_gpu_shader_half_float"),
                amd_gpu_shader_half_float_fetch: already_or_is(e.amd_gpu_shader_half_float_fetch, name, "VK_AMD_gpu_shader_half_float_fetch"),
                amd_gpu_shader_int16: already_or_is(e.amd_gpu_shader_int16, name, "VK_AMD_gpu_shader_int16"),
                amd_mixed_attachment_samples: already_or_is(e.amd_mixed_attachment_samples, name, "VK_AMD_mixed_attachment_samples"),
                amd_rasterization_order: already_or_is(e.amd_rasterization_order, name, "VK_AMD_rasterization_order"),
                amd_shader_ballot: already_or_is(e.amd_shader_ballot, name, "VK_AMD_shader_ballot"),
                amd_shader_core_properties: already_or_is(e.amd_shader_core_properties, name, "VK_AMD_shader_core_properties"),
                amd_shader_explicit_vertex_parameter: already_or_is(e.amd_shader_explicit_vertex_parameter, name, "VK_AMD_shader_explicit_vertex_parameter"),
                amd_shader_fragment_mask: already_or_is(e.amd_shader_fragment_mask, name, "VK_AMD_shader_fragment_mask"),
                amd_shader_image_load_store_lod: already_or_is(e.amd_shader_image_load_store_lod, name, "VK_AMD_shader_image_load_store_lod"),
                amd_shader_info: already_or_is(e.amd_shader_info, name, "VK_AMD_shader_info"),
                amd_shader_trinary_minmax: already_or_is(e.amd_shader_trinary_minmax, name, "VK_AMD_shader_trinary_minmax"),
                amd_texture_gather_bias_lod: already_or_is(e.amd_texture_gather_bias_lod, name, "VK_AMD_texture_gather_bias_lod"),
                amd_wave_limits: already_or_is(e.amd_wave_limits, name, "VK_AMD_wave_limits"),
                _unbuildable: e._unbuildable,
            };
            proof {
                assert(string_views(names@).take(k + 1) =~= seen.push(name@));
                lemma_name_set_push(seen, name@);
            }
            k += 1;
        }
        assert(string_views(names@).take(names.len() as int) =~= string_views(names@));
        e
    }
}

impl KnownExtensions for DeviceExtensions {
    open spec fn known_names() -> Seq<Seq<char>> {
        known_device_names()
    }

    proof fn lemma_one_flag_per_name(&self) {
    }

    proof fn lemma_known_names_distinct() {
        lemma_known_device_names_distinct();
    }

    fn known_count() -> (n: usize) {
        48
    }

    fn known_name(i: usize) -> (name: &'static str) {
        match i {
            0 => "VK_KHR_swapchain",
            1 => "VK_KHR_display_swapchain",
            2 => "VK_KHR_incremental_present",
            3 => "VK_EXT_debug_marker",
            4 => "VK_KHR_dedicated_allocation",
            5 => "VK_KHR_get_memory_requirements2",
            6 => "VK_KHR_get_physical_device_properties2",
            7 => "VK_KHR_maintenance1",
            8 => "VK_KHR_sampler_mirror_clamp_to_edge",
            9 => "VK_KHR_maintenance2",
            10 => "VK_KHR_maintenance3",
            11 => "VK_KHR_multiview",
            12 => "VK_KHR_bind_memory2",
            13 => "VK_KHR_descriptor_update_template",
            14 => "VK_KHR_relaxed_block_layout",
            15 => "VK_KHR_shader_draw_parameters",
            16 => "VK_KHR_storage_buffer_storage_class",
            17 => "VK_KHR_variable_pointers",
            18 => "VK_KHR_16bit_storage",
            19 => "VK_EXT_depth_range_unrestricted",
            20 => "VK_EXT_external_memory_host",
            21 => "VK_EXT_global_priority",
            22 => "VK_EXT_queue_family_foreign",
            23 => "VK_EXT_sample_locations",
            24 => "VK_EXT_sampler_filter_minmax",
            25 => "VK_EXT_shader_stencil_export",
            26 => "VK_EXT_shader_subgroup_ballot",
            27 => "VK_EXT_shader_subgroup_vote",
            28 => "VK_EXT_shader_viewport_index_layer",
            29 => "VK_AMD_buffer_marker",
            30 => "VK_AMD_calibrated_timestamps",
            31 => "VK_AMD_draw_indirect_count",
            32 => "VK_AMD_gcn_shader",
            33 => "VK_AMD_gpa_interface",
            34 => "VK_AMD_gpu_shader_half_float",
            35 => "VK_AMD_gpu_shader_half_float_fetch",
            36 => "VK_AMD_gpu_shader_int16",
            37 => "VK_AMD_mixed_attachment_samples",
            38 => "VK_AMD_rasterization_order",
            39 => "VK_AMD_shader_ballot",
            40 => "VK_AMD_shader_core_properties",
            41 => "VK_AMD_shader_explicit_vertex_parameter",
            42 => "VK_AMD_shader_fragment_mask",
            43 => "VK_AMD_shader_image_load_store_lod",
            44 => "VK_AMD_shader_info",
            45 => "VK_AMD_shader_trinary_minmax",
            46 => "VK_AMD_texture_gather_bias_lod",
            _ => "VK_AMD_wave_limits",
        }
    }

    fn flag(&self, i: usize) -> (b: bool) {
        match i {
            0 => self.khr_swapchain,
            1 => self.khr_display_swapchain,
            2 => self.khr_incremental_present,
            3 => self.ext_debug_marker,
            4 => self.khr_dedicated_allocation,
            5 => self.khr_get_memory_requirements2,
            6 => self.khr_get_physical_device_properties2,
            7 => self.khr_maintenance1,
            8 => self.khr_sampler_mirror_clamp_to_edge,
            9 => self.khr_maintenance2,
            10 => self.khr_maintenance3,
            11 => self.khr_multiview,
            12 => self.khr_bind_memory2,
            13 => self.khr_descriptor_update_template,
            14 => self.khr_relaxed_block_layout,
            15 => self.khr_shader_draw_parameters,
            16 => self.khr_storage_buffer_storage_class,
            17 => self.khr_variable_pointers,
            18 => self.khr_16bit_storage,
            19 => self.ext_depth_range_unrestricted,
            20 => self.ext_external_memory_host,
            21 => self.ext_global_priority,
            22 => self.ext_queue_family_foreign,
            23 => self.ext_sample_locations,
            24 => self.ext_sampler_filter_minmax,
            25 => self.ext_shader_stencil_export,
            26 => self.ext_shader_subgroup_ballot,
            27 => self.ext_shader_subgroup_vote,
            28 => self.ext_shader_viewport_index_layer,
            29 => self.amd_buffer_marker,
            30 => self.amd_calibrated_timestamps,
            31 => self.amd_draw_indirect_count,
            32 => self.amd_gcn_shader,
            33 => self.amd_gpa_interface,
            34 => self.amd_gpu_shader_half_float,
            35 => self.amd_gpu_shader_half_float_fetch,
            36 => self.amd_gpu_shader_int16,
            37 => self.amd_mixed_attachment_samples,
            38 => self.amd_rasterization_order,
            39 => self.amd_shader_ballot,
            40 => self.amd_shader_core_properties,
            41 => self.amd_shader_explicit_vertex_parameter,
            42 => self.amd_shader_fragment_mask,
            43 => self.amd_shader_image_load_store_lod,
            44 => self.amd_shader_info,
            45 => self.amd_shader_trinary_minmax,
            46 => self.amd_texture_gather_bias_lod,
            _ => self.amd_wave_limits,
        }
    }
}

impl PartialEq for DeviceExtensions {
    fn eq(&self, other: &Self) -> (r: bool) {
        let r = self.khr_swapchain == other.khr_swapchain
            && self.khr_display_swapchain == other.khr_display_swapchain
            && self.khr_incremental_present == other.khr_incremental_present
            && self.ext_debug_marker == other.ext_debug_marker
            && self.khr_dedicated_allocation == other.khr_dedicated_allocation
            && self.khr_get_memory_requirements2 == other.khr_get_memory_requirements2
            && self.khr_get_physical_device_properties2 == other.khr_get_physical_device_properties2
            && self.khr_maintenance1 == other.khr_maintenance1
            && self.khr_sampler_mirror_clamp_to_edge == other.khr_sampler_mirror_clamp_to_edge
            && self.khr_maintenance2 == other.khr_maintenance2
            && self.khr_maintenance3 == other.khr_maintenance3
            && self.khr_multiview == other.khr_multiview
            && self.khr_bind_memory2 == other.khr_bind_memory2
            && self.khr_descriptor_update_template == other.khr_descriptor_update_template
            && self.khr_relaxed_block_layout == other.khr_relaxed_block_layout
            && self.khr_shader_draw_parameters == other.khr_shader_draw_parameters
            && self.khr_storage_buffer_storage_class == other.khr_storage_buffer_storage_class
            && self.khr_variable_pointers == other.khr_variable_pointers
            && self.khr_16bit_storage == other.khr_16bit_storage
            && self.ext_depth_range_unrestricted == other.ext_depth_range_unrestricted
            && self.ext_external_memory_host == other.ext_external_memory_host
            && self.ext_global_priority == other.ext_global_priority
            && self.ext_queue_family_foreign == other.ext_queue_family_foreign
            && self.ext_sample_locations == other.ext_sample_locations
            && self.ext_sampler_filter_minmax == other.ext_sampler_filter_minmax
            && self.ext_shader_stencil_export == other.ext_shader_stencil_export
            && self.ext_shader_subgroup_ballot == other.ext_shader_subgroup_ballot
            && self.ext_shader_subgroup_vote == other.ext_shader_subgroup_vote
            && self.ext_shader_viewport_index_layer == other.ext_shader_viewport_index_layer
            && self.amd_buffer_marker == other.amd_buffer_marker
            && self.amd_calibrated_timestamps == other.amd_calibrated_timestamps
            && self.amd_draw_indirect_count == other.amd_draw_indirect_count
            && self.amd_gcn_shader == other.amd_gcn_shader
            && self.amd_gpa_interface == other.amd_gpa_interface
            && self.amd_gpu_shader_half_float == other.amd_gpu_shader_half_float
            && self.amd_gpu_shader_half_float_fetch == other.amd_gpu_shader_half_float_fetch
            && self.amd_gpu_shader_int16 == other.amd_gpu_shader_int16
            && self.amd_mixed_attachment_samples == other.amd_mixed_attachment_samples
            && self.amd_rasterization_order == other.amd_rasterization_order
            && self.amd_shader_ballot == other.amd_shader_ballot
            && self.amd_shader_core_properties == other.amd_shader_core_properties
            && self.amd_shader_explicit_vertex_parameter == other.amd_shader_explicit_vertex_parameter
            && self.amd_shader_fragment_mask == other.amd_shader_fragment_mask
            && self.amd_shader_image_load_store_lod == other.amd_shader_image_load_store_lod
            && self.amd_shader_info == other.amd_shader_info
            && self.amd_shader_trinary_minmax == other.amd_shader_trinary_minmax
            && self.amd_texture_gather_bias_lod == other.amd_texture_gather_bias_lod
            && self.amd_wave_limits == other.amd_wave_limits
;
        proof {
            lemma_unbuildable_unique(self._unbuildable, other._unbuildable);
        }
        r
    }
}

impl Eq for DeviceExtensions {

}

impl vstd::std_specs::cmp::PartialEqSpecImpl for DeviceExtensions {
    open spec fn obeys_eq_spec() -> bool {
        true
    }

    open spec fn eq_spec(&self, other: &Self) -> bool {
        *self == *other
    }
}

/// Set of device extensions, not restricted to those this library knows
/// about. This is useful when interacting with code whose extension
/// requirements are not known in advance.
pub struct RawDeviceExtensions(ExtensionNames);

impl View for RawDeviceExtensions {
    type V = Set<Seq<char>>;

    /// The names in the set.
    closed spec fn view(&self) -> Set<Seq<char>> {
        self.0@
    }
}

impl RawDeviceExtensions {
    /// Constructs an extension set containing the supplied extensions.
    pub fn new(extensions: Vec<String>) -> (r: Self)
        ensures
            r@ == name_set(string_views(extensions@)),
    {
        RawDeviceExtensions(ExtensionNames::from_vec(extensions))
    }

    /// Constructs an empty extension set.
    pub fn none() -> (r: Self)
        ensures
            r@ == Set::<Seq<char>>::empty(),
    {
        RawDeviceExtensions(ExtensionNames::empty())
    }

    /// Adds an extension to the set if it is not already present.
    pub fn insert(&mut self, extension: String)
        ensures
            final(self)@ == old(self)@.insert(extension@),
    {
        self.0.insert(extension);
    }

    /// Returns the intersection of this set and another.
    pub fn intersection(&self, other: &Self) -> (r: Self)
        ensures
            r@ == self@.intersect(other@),
    {
        RawDeviceExtensions(self.0.intersection(&other.0))
    }

    /// Returns the difference of another set from this one.
    pub fn difference(&self, other: &Self) -> (r: Self)
        ensures
            r@ == self@.difference(other@),
    {
        RawDeviceExtensions(self.0.difference(&other.0))
    }

    /// Returns the union of both extension sets.
    pub fn union(&self, other: &Self) -> (r: Self)
        ensures
            r@ == self@.union(other@),
    {
        RawDeviceExtensions(self.0.union(&other.0))
    }

    /// An iterator over the names in the set, each given once, in no
    /// particular order.
    pub fn iter(&self) -> (it: std::slice::Iter<'_, String>)
        ensures
            name_set(ref_views(it.remaining())) == self@,
            names_distinct(ref_views(it.remaining())),
    {
        self.0.iter()
    }
}

impl Clone for RawDeviceExtensions {
    fn clone(&self) -> (r: Self)
        ensures
            r@ == self@,
    {
        RawDeviceExtensions(self.0.duplicate())
    }
}

impl PartialEq for RawDeviceExtensions {
    fn eq(&self, other: &Self) -> (r: bool) {
        self.0.same_names(&other.0)
    }
}

impl Eq for RawDeviceExtensions {

}

impl vstd::std_specs::cmp::PartialEqSpecImpl for RawDeviceExtensions {
    open spec fn obeys_eq_spec() -> bool {
        true
    }

    open spec fn eq_spec(&self, other: &Self) -> bool {
        self@ == other@
    }
}

impl<'a> From<&'a DeviceExtensions> for RawDeviceExtensions {
    /// The names of the extensions whose flag is on.
    fn from(x: &'a DeviceExtensions) -> (r: Self)
        ensures
            r@ == x.enabled_names(),
    {
        RawDeviceExtensions(chosen_names(x))
    }
}

impl<'a> vstd::std_specs::convert::FromSpecImpl<&'a DeviceExtensions> for RawDeviceExtensions {
    /// The set is fixed by its names, not by the order in which it stores
    /// them; so no single value is promised, only its names (see `from`).
    open spec fn obeys_from_spec() -> bool {
        false
    }

    open spec fn from_spec(x: &'a DeviceExtensions) -> Self {
        choose|r: Self| r@ == x.enabled_names()
    }
}

impl<'a> From<&'a RawDeviceExtensions> for DeviceExtensions {
    /// A flag is on exactly where its name is in the set; the names that this
    /// library does not know are left out.
    fn from(x: &'a RawDeviceExtensions) -> (r: Self) {
        DeviceExtensions::from_supported_names(x.0.names())
    }
}

impl<'a> vstd::std_specs::convert::FromSpecImpl<&'a RawDeviceExtensions> for DeviceExtensions {
    open spec fn obeys_from_spec() -> bool {
        true
    }

    open spec fn from_spec(x: &'a RawDeviceExtensions) -> Self {
        DeviceExtensions::with_names(x@)
    }
}

/// Turning a list of flags into names and the names back into flags gives
/// the list back.
pub proof fn lemma_device_names_round_trip(e: DeviceExtensions)
    ensures
        DeviceExtensions::with_names(e.enabled_names()) == e,
{
    let names = known_device_names();
    lemma_known_device_names_distinct();
    lemma_chosen_at(names, e@, 0);
    lemma_chosen_at(names, e@, 1);
    lemma_chosen_at(names, e@, 2);
    lemma_chosen_at(names, e@, 3);
    lemma_chosen_at(names, e@, 4);
    lemma_chosen_at(names, e@, 5);
    lemma_chosen_at(names, e@, 6);
    lemma_chosen_at(names, e@, 7);
    lemma_chosen_at(names, e@, 8);
    lemma_chosen_at(names, e@, 9);
    lemma_chosen_at(names, e@, 10);
    lemma_chosen_at(names, e@, 11);
    lemma_chosen_at(names, e@, 12);
    lemma_chosen_at(names, e@, 13);
    lemma_chosen_at(names, e@, 14);
    lemma_chosen_at(names, e@, 15);
    lemma_chosen_at(names, e@, 16);
    lemma_chosen_at(names, e@, 17);
    lemma_chosen_at(names, e@, 18);
    lemma_chosen_at(names, e@, 19);
    lemma_chosen_at(names, e@, 20);
    lemma_chosen_at(names, e@, 21);
    lemma_chosen_at(names, e@, 22);
    lemma_chosen_at(names, e@, 23);
    lemma_chosen_at(names, e@, 24);
    lemma_chosen_at(names, e@, 25);
    lemma_chosen_at(names, e@, 26);
    lemma_chosen_at(names, e@, 27);
    lemma_chosen_at(names, e@, 28);
    lemma_chosen_at(names, e@, 29);
    lemma_chosen_at(names, e@, 30);
    lemma_chosen_at(names, e@, 31);
    lemma_chosen_at(names, e@, 32);
    lemma_chosen_at(names, e@, 33);
    lemma_chosen_at(names, e@, 34);
    lemma_chosen_at(names, e@, 35);
    lemma_chosen_at(names, e@, 36);
    lemma_chosen_at(names, e@, 37);
    lemma_chosen_at(names, e@, 38);
    lemma_chosen_at(names, e@, 39);
    lemma_chosen_at(names, e@, 40);
    lemma_chosen_at(names, e@, 41);
    lemma_chosen_at(names, e@, 42);
    lemma_chosen_at(names, e@, 43);
    lemma_chosen_at(names, e@, 44);
    lemma_chosen_at(names, e@, 45);
    lemma_chosen_at(names, e@, 46);
    lemma_chosen_at(names, e@, 47);
    lemma_unbuildable_unique(e._unbuildable, unbuildable_value());
}

/// Turning a set of names into flags and the flags back into names keeps
/// exactly the names of the set that this library knows.
pub proof fn lemma_device_flags_round_trip(names: Set<Seq<char>>)
    ensures
        DeviceExtensions::with_names(names).enabled_names() == names.intersect(known_device_extensions()),
{
    let known = known_device_names();
    let e = DeviceExtensions::with_names(names);
    assert forall|i: int| 0 <= i < 48 implies #[trigger] e@[i] == names.contains(known[i]) by {
        assert(0 <= i < 48 ==> (i == 0 || i == 1 || i == 2 || i == 3 || i == 4 || i == 5 || i == 6 || i == 7
            || i == 8 || i == 9 || i == 10 || i == 11 || i == 12 || i == 13 || i == 14
            || i == 15 || i == 16 || i == 17 || i == 18 || i == 19 || i == 20 || i == 21
            || i == 22 || i == 23 || i == 24 || i == 25 || i == 26 || i == 27 || i == 28
            || i == 29 || i == 30 || i == 31 || i == 32 || i == 33 || i == 34 || i == 35
            || i == 36 || i == 37 || i == 38 || i == 39 || i == 40 || i == 41 || i == 42
            || i == 43 || i == 44 || i == 45 || i == 46 || i == 47));
    }
    assert(e@ =~= Seq::new(known.len(), |i: int| names.contains(known[i])));
    lemma_chosen_members(known, names);
}

/// The names of the intersection of two lists are the names that both
/// lists have.
pub proof fn lemma_device_intersection_names(a: DeviceExtensions, b: DeviceExtensions)
    ensures
        a.both(b).enabled_names() == a.enabled_names().intersect(b.enabled_names()),
{
    lemma_known_device_names_distinct();
    assert forall|i: int| 0 <= i < 48 implies #[trigger] a.both(b)@[i] == (a@[i] && b@[i]) by {
        assert(0 <= i < 48 ==> (i == 0 || i == 1 || i == 2 || i == 3 || i == 4 || i == 5 || i == 6 || i == 7
            || i == 8 || i == 9 || i == 10 || i == 11 || i == 12 || i == 13 || i == 14
            || i == 15 || i == 16 || i == 17 || i == 18 || i == 19 || i == 20 || i == 21
            || i == 22 || i == 23 || i == 24 || i == 25 || i == 26 || i == 27 || i == 28
            || i == 29 || i == 30 || i == 31 || i == 32 || i == 33 || i == 34 || i == 35
            || i == 36 || i == 37 || i == 38 || i == 39 || i == 40 || i == 41 || i == 42
            || i == 43 || i == 44 || i == 45 || i == 46 || i == 47));
    }
    assert(a.both(b)@ =~= flags_and(a@, b@));
    lemma_chosen_and(known_device_names(), a@, b@);
}

/// The names of the difference of two lists are the names of the first that
/// the second does not have.
pub proof fn lemma_device_difference_names(a: DeviceExtensions, b: DeviceExtensions)
    ensures
        a.only_first(b).enabled_names() == a.enabled_names().difference(b.enabled_names()),
{
    lemma_known_device_names_distinct();
    assert forall|i: int| 0 <= i < 48 implies #[trigger] a.only_first(b)@[i] == (a@[i] && !b@[i]) by {
        assert(0 <= i < 48 ==> (i == 0 || i == 1 || i == 2 || i == 3 || i == 4 || i == 5 || i == 6 || i == 7
            || i == 8 || i == 9 || i == 10 || i == 11 || i == 12 || i == 13 || i == 14
            || i == 15 || i == 16 || i == 17 || i == 18 || i == 19 || i == 20 || i == 21
            || i == 22 || i == 23 || i == 24 || i == 25 || i == 26 || i == 27 || i == 28
            || i == 29 || i == 30 || i == 31 || i == 32 || i == 33 || i == 34 || i == 35
            || i == 36 || i == 37 || i == 38 || i == 39 || i == 40 || i == 41 || i == 42
            || i == 43 || i == 44 || i == 45 || i == 46 || i == 47));
    }
    assert(a.only_first(b)@ =~= flags_and_not(a@, b@));
    lemma_chosen_and_not(known_device_names(), a@, b@);
}

/// The list with no flag on has no names.
pub proof fn lemma_device_none_has_no_names()
    ensures
        no_device_extensions().enabled_names() == Set::<Seq<char>>::empty(),
{
    let e = no_device_extensions();
    assert forall|i: int| 0 <= i < 48 implies !(#[trigger] e@[i]) by {
        assert(0 <= i < 48 ==> (i == 0 || i == 1 || i == 2 || i == 3 || i == 4 || i == 5 || i == 6 || i == 7
            || i == 8 || i == 9 || i == 10 || i == 11 || i == 12 || i == 13 || i == 14
            || i == 15 || i == 16 || i == 17 || i == 18 || i == 19 || i == 20 || i == 21
            || i == 22 || i == 23 || i == 24 || i == 25 || i == 26 || i == 27 || i == 28
            || i == 29 || i == 30 || i == 31 || i == 32 || i == 33 || i == 34 || i == 35
            || i == 36 || i == 37 || i == 38 || i == 39 || i == 40 || i == 41 || i == 42
            || i == 43 || i == 44 || i == 45 || i == 46 || i == 47));
    }
    lemma_chosen_none(known_device_names(), e@);
}

/// Intersection does not depend on the order of its operands.
pub proof fn lemma_device_intersection_commutes(a: DeviceExtensions, b: DeviceExtensions)
    ensures
        a.both(b) == b.both(a),
{
}

/// Intersection can be grouped either way.
pub proof fn lemma_device_intersection_associates(a: DeviceExtensions, b: DeviceExtensions, c: DeviceExtensions)
    ensures
        a.both(b).both(c) == a.both(b.both(c)),
{
}

/// The intersection of a list with itself is the list.
pub proof fn lemma_device_intersection_idempotent(a: DeviceExtensions)
    ensures
        a.both(a) == a,
{
    lemma_unbuildable_unique(a._unbuildable, unbuildable_value());
}

/// The intersection with the empty list is the empty list.
pub proof fn lemma_device_intersection_with_none(a: DeviceExtensions)
    ensures
        a.both(no_device_extensions()) == no_device_extensions(),
{
}

/// Taking a list from itself leaves the empty list.
pub proof fn lemma_device_difference_with_self(a: DeviceExtensions)
    ensures
        a.only_first(a) == no_device_extensions(),
{
}

/// Taking the empty list from a list leaves the list.
pub proof fn lemma_device_difference_with_none(a: DeviceExtensions)
    ensures
        a.only_first(no_device_extensions()) == a,
{
    lemma_unbuildable_unique(a._unbuildable, unbuildable_value());
}

/// What is left after taking `b` away has nothing in common with `b`.
pub proof fn lemma_device_difference_then_intersection(a: DeviceExtensions, b: DeviceExtensions)
    ensures
        a.only_first(b).both(b) == no_device_extensions(),
{
}

/// The table of known names: the flag at each position is the field of that
/// position, and the name at that position is the name of that field's
/// extension.
pub proof fn lemma_device_table(e: DeviceExtensions)
    ensures
        e@.len() == known_device_names().len(),

        e@[0] == e.khr_swapchain,
        known_device_names()[0] == "VK_KHR_swapchain"@,
        e@[1] == e.khr_display_swapchain,
        known_device_names()[1] == "VK_KHR_display_swapchain"@,
        e@[2] == e.khr_incremental_present,
        known_device_names()[2] == "VK_KHR_incremental_present"@,
        e@[3] == e.ext_debug_marker,
        known_device_names()[3] == "VK_EXT_debug_marker"@,
        e@[4] == e.khr_dedicated_allocation,
        known_device_names()[4] == "VK_KHR_dedicated_allocation"@,
        e@[5] == e.khr_get_memory_requirements2,
        known_device_names()[5] == "VK_KHR_get_memory_requirements2"@,
        e@[6] == e.khr_get_physical_device_properties2,
        known_device_names()[6] == "VK_KHR_get_physical_device_properties2"@,
        e@[7] == e.khr_maintenance1,
        known_device_names()[7] == "VK_KHR_maintenance1"@,
        e@[8] == e.khr_sampler_mirror_clamp_to_edge,
        known_device_names()[8] == "VK_KHR_sampler_mirror_clamp_to_edge"@,
        e@[9] == e.khr_maintenance2,
        known_device_names()[9] == "VK_KHR_maintenance2"@,
        e@[10] == e.khr_maintenance3,
        known_device_names()[10] == "VK_KHR_maintenance3"@,
        e@[11] == e.khr_multiview,
        known_device_names()[11] == "VK_KHR_multiview"@,
        e@[12] == e.khr_bind_memory2,
        known_device_names()[12] == "VK_KHR_bind_memory2"@,
        e@[13] == e.khr_descriptor_update_template,
        known_device_names()[13] == "VK_KHR_descriptor_update_template"@,
        e@[14] == e.khr_relaxed_block_layout,
        known_device_names()[14] == "VK_KHR_relaxed_block_layout"@,
        e@[15] == e.khr_shader_draw_parameters,
        known_device_names()[15] == "VK_KHR_shader_draw_parameters"@,
        e@[16] == e.khr_storage_buffer_storage_class,
        known_device_names()[16] == "VK_KHR_storage_buffer_storage_class"@,
        e@[17] == e.khr_variable_pointers,
        known_device_names()[17] == "VK_KHR_variable_pointers"@,
        e@[18] == e.khr_16bit_storage,
        known_device_names()[18] == "VK_KHR_16bit_storage"@,
        e@[19] == e.ext_depth_range_unrestricted,
        known_device_names()[19] == "VK_EXT_depth_range_unrestricted"@,
        e@[20] == e.ext_external_memory_host,
        known_device_names()[20] == "VK_EXT_external_memory_host"@,
        e@[21] == e.ext_global_priority,
        known_device_names()[21] == "VK_EXT_global_priority"@,
        e@[22] == e.ext_queue_family_foreign,
        known_device_names()[22] == "VK_EXT_queue_family_foreign"@,
        e@[23] == e.ext_sample_locations,
        known_device_names()[23] == "VK_EXT_sample_locations"@,
        e@[24] == e.ext_sampler_filter_minmax,
        known_device_names()[24] == "VK_EXT_sampler_filter_minmax"@,
        e@[25] == e.ext_shader_stencil_export,
        known_device_names()[25] == "VK_EXT_shader_stencil_export"@,
        e@[26] == e.ext_shader_subgroup_ballot,
        known_device_names()[26] == "VK_EXT_shader_subgroup_ballot"@,
        e@[27] == e.ext_shader_subgroup_vote,
        known_device_names()[27] == "VK_EXT_shader_subgroup_vote"@,
        e@[28] == e.ext_shader_viewport_index_layer,
        known_device_names()[28] == "VK_EXT_shader_viewport_index_layer"@,
        e@[29] == e.amd_buffer_marker,
        known_device_names()[29] == "VK_AMD_buffer_marker"@,
        e@[30] == e.amd_calibrated_timestamps,
        known_device_names()[30] == "VK_AMD_calibrated_timestamps"@,
        e@[31] == e.amd_draw_indirect_count,
        known_device_names()[31] == "VK_AMD_draw_indirect_count"@,
        e@[32] == e.amd_gcn_shader,
        known_device_names()[32] == "VK_AMD_gcn_shader"@,
        e@[33] == e.amd_gpa_interface,
        known_device_names()[33] == "VK_AMD_gpa_interface"@,
        e@[34] == e.amd_gpu_shader_half_float,
        known_device_names()[34] == "VK_AMD_gpu_shader_half_float"@,
        e@[35] == e.amd_gpu_shader_half_float_fetch,
        known_device_names()[35] == "VK_AMD_gpu_shader_half_float_fetch"@,
        e@[36] == e.amd_gpu_shader_int16,
        known_device_names()[36] == "VK_AMD_gpu_shader_int16"@,
        e@[37] == e.amd_mixed_attachment_samples,
        known_device_names()[37] == "VK_AMD_mixed_attachment_samples"@,
        e@[38] == e.amd_rasterization_order,
        known_device_names()[38] == "VK_AMD_rasterization_order"@,
        e@[39] == e.amd_shader_ballot,
        known_device_names()[39] == "VK_AMD_shader_ballot"@,
        e@[40] == e.amd_shader_core_properties,
        known_device_names()[40] == "VK_AMD_shader_core_properties"@,
        e@[41] == e.amd_shader_explicit_vertex_parameter,
        known_device_names()[41] == "VK_AMD_shader_explicit_vertex_parameter"@,
        e@[42] == e.amd_shader_fragment_mask,
        known_device_names()[42] == "VK_AMD_shader_fragment_mask"@,
        e@[43] == e.amd_shader_image_load_store_lod,
        known_device_names()[43] == "VK_AMD_shader_image_load_store_lod"@,
        e@[44] == e.amd_shader_info,
        known_device_names()[44] == "VK_AMD_shader_info"@,
        e@[45] == e.amd_shader_trinary_minmax,
        known_device_names()[45] == "VK_AMD_shader_trinary_minmax"@,
        e@[46] == e.amd_texture_gather_bias_lod,
        known_device_names()[46] == "VK_AMD_texture_gather_bias_lod"@,
        e@[47] == e.amd_wave_limits,
        known_device_names()[47] == "VK_AMD_wave_limits"@,
{
}

/// The names of a list hold the name of each extension exactly where that
/// extension's flag is on.
pub proof fn lemma_device_enabled_names_by_field(e: DeviceExtensions)
    ensures
        e.enabled_names().contains("VK_KHR_swapchain"@) == e.khr_swapchain,
        e.enabled_names().contains("VK_KHR_display_swapchain"@) == e.khr_display_swapchain,
        e.enabled_names().contains("VK_KHR_incremental_present"@) == e.khr_incremental_present,
        e.enabled_names().contains("VK_EXT_debug_marker"@) == e.ext_debug_marker,
        e.enabled_names().contains("VK_KHR_dedicated_allocation"@) == e.khr_dedicated_allocation,
        e.enabled_names().contains("VK_KHR_get_memory_requirements2"@) == e.khr_get_memory_requirements2,
        e.enabled_names().contains("VK_KHR_get_physical_device_properties2"@) == e.khr_get_physical_device_properties2,
        e.enabled_names().contains("VK_KHR_maintenance1"@) == e.khr_maintenance1,
        e.enabled_names().contains("VK_KHR_sampler_mirror_clamp_to_edge"@) == e.khr_sampler_mirror_clamp_to_edge,
        e.enabled_names().contains("VK_KHR_maintenance2"@) == e.khr_maintenance2,
        e.enabled_names().contains("VK_KHR_maintenance3"@) == e.khr_maintenance3,
        e.enabled_names().contains("VK_KHR_multiview"@) == e.khr_multiview,
        e.enabled_names().contains("VK_KHR_bind_memory2"@) == e.khr_bind_memory2,
        e.enabled_names().contains("VK_KHR_descriptor_update_template"@) == e.khr_descriptor_update_template,
        e.enabled_names().contains("VK_KHR_relaxed_block_layout"@) == e.khr_relaxed_block_layout,
        e.enabled_names().contains("VK_KHR_shader_draw_parameters"@) == e.khr_shader_draw_parameters,
        e.enabled_names().contains("VK_KHR_storage_buffer_storage_class"@) == e.khr_storage_buffer_storage_class,
        e.enabled_names().contains("VK_KHR_variable_pointers"@) == e.khr_variable_pointers,
        e.enabled_names().contains("VK_KHR_16bit_storage"@) == e.khr_16bit_storage,
        e.enabled_names().contains("VK_EXT_depth_range_unrestricted"@) == e.ext_depth_range_unrestricted,
        e.enabled_names().contains("VK_EXT_external_memory_host"@) == e.ext_external_memory_host,
        e.enabled_names().contains("VK_EXT_global_priority"@) == e.ext_global_priority,
        e.enabled_names().contains("VK_EXT_queue_family_foreign"@) == e.ext_queue_family_foreign,
        e.enabled_names().contains("VK_EXT_sample_locations"@) == e.ext_sample_locations,
        e.enabled_names().contains("VK_EXT_sampler_filter_minmax"@) == e.ext_sampler_filter_minmax,
        e.enabled_names().contains("VK_EXT_shader_stencil_export"@) == e.ext_shader_stencil_export,
        e.enabled_names().contains("VK_EXT_shader_subgroup_ballot"@) == e.ext_shader_subgroup_ballot,
        e.enabled_names().contains("VK_EXT_shader_subgroup_vote"@) == e.ext_shader_subgroup_vote,
        e.enabled_names().contains("VK_EXT_shader_viewport_index_layer"@) == e.ext_shader_viewport_index_layer,
        e.enabled_names().contains("VK_AMD_buffer_marker"@) == e.amd_buffer_marker,
        e.enabled_names().contains("VK_AMD_calibrated_timestamps"@) == e.amd_calibrated_timestamps,
        e.enabled_names().contains("VK_AMD_draw_indirect_count"@) == e.amd_draw_indirect_count,
        e.enabled_names().contains("VK_AMD_gcn_shader"@) == e.amd_gcn_shader,
        e.enabled_names().contains("VK_AMD_gpa_interface"@) == e.amd_gpa_interface,
        e.enabled_names().contains("VK_AMD_gpu_shader_half_float"@) == e.amd_gpu_shader_half_float,
        e.enabled_names().contains("VK_AMD_gpu_shader_half_float_fetch"@) == e.amd_gpu_shader_half_float_fetch,
        e.enabled_names().contains("VK_AMD_gpu_shader_int16"@) == e.amd_gpu_shader_int16,
        e.enabled_names().contains("VK_AMD_mixed_attachment_samples"@) == e.amd_mixed_attachment_samples,
        e.enabled_names().contains("VK_AMD_rasterization_order"@) == e.amd_rasterization_order,
        e.enabled_names().contains("VK_AMD_shader_ballot"@) == e.amd_shader_ballot,
        e.enabled_names().contains("VK_AMD_shader_core_properties"@) == e.amd_shader_core_properties,
        e.enabled_names().contains("VK_AMD_shader_explicit_vertex_parameter"@) == e.amd_shader_explicit_vertex_parameter,
        e.enabled_names().contains("VK_AMD_shader_fragment_mask"@) == e.amd_shader_fragment_mask,
        e.enabled_names().contains("VK_AMD_shader_image_load_store_lod"@) == e.amd_shader_image_load_store_lod,
        e.enabled_names().contains("VK_AMD_shader_info"@) == e.amd_shader_info,
        e.enabled_names().contains("VK_AMD_shader_trinary_minmax"@) == e.amd_shader_trinary_minmax,
        e.enabled_names().contains("VK_AMD_texture_gather_bias_lod"@) == e.amd_texture_gather_bias_lod,
        e.enabled_names().contains("VK_AMD_wave_limits"@) == e.amd_wave_limits,
{
    let names = known_device_names();
    lemma_known_device_names_distinct();
    lemma_device_table(e);
    lemma_chosen_at(names, e@, 0);
    lemma_chosen_at(names, e@, 1);
    lemma_chosen_at(names, e@, 2);
    lemma_chosen_at(names, e@, 3);
    lemma_chosen_at(names, e@, 4);
    lemma_chosen_at(names, e@, 5);
    lemma_chosen_at(names, e@, 6);
    lemma_chosen_at(names, e@, 7);
    lemma_chosen_at(names, e@, 8);
    lemma_chosen_at(names, e@, 9);
    lemma_chosen_at(names, e@, 10);
    lemma_chosen_at(names, e@, 11);
    lemma_chosen_at(names, e@, 12);
    lemma_chosen_at(names, e@, 13);
    lemma_chosen_at(names, e@, 14);
    lemma_chosen_at(names, e@, 15);
    lemma_chosen_at(names, e@, 16);
    lemma_chosen_at(names, e@, 17);
    lemma_chosen_at(names, e@, 18);
    lemma_chosen_at(names, e@, 19);
    lemma_chosen_at(names, e@, 20);
    lemma_chosen_at(names, e@, 21);
    lemma_chosen_at(names, e@, 22);
    lemma_chosen_at(names, e@, 23);
    lemma_chosen_at(names, e@, 24);
    lemma_chosen_at(names, e@, 25);
    lemma_chosen_at(names, e@, 26);
    lemma_chosen_at(names, e@, 27);
    lemma_chosen_at(names, e@, 28);
    lemma_chosen_at(names, e@, 29);
    lemma_chosen_at(names, e@, 30);
    lemma_chosen_at(names, e@, 31);
    lemma_chosen_at(names, e@, 32);
    lemma_chosen_at(names, e@, 33);
    lemma_chosen_at(names, e@, 34);
    lemma_chosen_at(names, e@, 35);
    lemma_chosen_at(names, e@, 36);
    lemma_chosen_at(names, e@, 37);
    lemma_chosen_at(names, e@, 38);
    lemma_chosen_at(names, e@, 39);
    lemma_chosen_at(names, e@, 40);
    lemma_chosen_at(names, e@, 41);
    lemma_chosen_at(names, e@, 42);
    lemma_chosen_at(names, e@, 43);
    lemma_chosen_at(names, e@, 44);
    lemma_chosen_at(names, e@, 45);
    lemma_chosen_at(names, e@, 46);
    lemma_chosen_at(names, e@, 47);
}

/// Reading flags off a set of names turns on each extension exactly where
/// its name is in the set; this is what `from_supported_names` and the
/// conversion from a raw set give.
pub proof fn lemma_device_with_names_by_field(names: Set<Seq<char>>)
    ensures
        DeviceExtensions::with_names(names).khr_swapchain == names.contains("VK_KHR_swapchain"@),
        DeviceExtensions::with_names(names).khr_display_swapchain == names.contains("VK_KHR_display_swapchain"@),
        DeviceExtensions::with_names(names).khr_incremental_present == names.contains("VK_KHR_incremental_present"@),
        DeviceExtensions::with_names(names).ext_debug_marker == names.contains("VK_EXT_debug_marker"@),
        DeviceExtensions::with_names(names).khr_dedicated_allocation == names.contains("VK_KHR_dedicated_allocation"@),
        DeviceExtensions::with_names(names).khr_get_memory_requirements2 == names.contains("VK_KHR_get_memory_requirements2"@),
        DeviceExtensions::with_names(names).khr_get_physical_device_properties2 == names.contains("VK_KHR_get_physical_device_properties2"@),
        DeviceExtensions::with_names(names).khr_maintenance1 == names.contains("VK_KHR_maintenance1"@),
        DeviceExtensions::with_names(names).khr_sampler_mirror_clamp_to_edge == names.contains("VK_KHR_sampler_mirror_clamp_to_edge"@),
        DeviceExtensions::with_names(names).khr_maintenance2 == names.contains("VK_KHR_maintenance2"@),
        DeviceExtensions::with_names(names).khr_maintenance3 == names.contains("VK_KHR_maintenance3"@),
        DeviceExtensions::with_names(names).khr_multiview == names.contains("VK_KHR_multiview"@),
        DeviceExtensions::with_names(names).khr_bind_memory2 == names.contains("VK_KHR_bind_memory2"@),
        DeviceExtensions::with_names(names).khr_descriptor_update_template == names.contains("VK_KHR_descriptor_update_template"@),
        DeviceExtensions::with_names(names).khr_relaxed_block_layout == names.contains("VK_KHR_relaxed_block_layout"@),
        DeviceExtensions::with_names(names).khr_shader_draw_parameters == names.contains("VK_KHR_shader_draw_parameters"@),
        DeviceExtensions::with_names(names).khr_storage_buffer_storage_class == names.contains("VK_KHR_storage_buffer_storage_class"@),
        DeviceExtensions::with_names(names).khr_variable_pointers == names.contains("VK_KHR_variable_pointers"@),
        DeviceExtensions::with_names(names).khr_16bit_storage == names.contains("VK_KHR_16bit_storage"@),
        DeviceExtensions::with_names(names).ext_depth_range_unrestricted == names.contains("VK_EXT_depth_range_unrestricted"@),
        DeviceExtensions::with_names(names).ext_external_memory_host == names.contains("VK_EXT_external_memory_host"@),
        DeviceExtensions::with_names(names).ext_global_priority == names.contains("VK_EXT_global_priority"@),
        DeviceExtensions::with_names(names).ext_queue_family_foreign == names.contains("VK_EXT_queue_family_foreign"@),
        DeviceExtensions::with_names(names).ext_sample_locations == names.contains("VK_EXT_sample_locations"@),
        DeviceExtensions::with_names(names).ext_sampler_filter_minmax == names.contains("VK_EXT_sampler_filter_minmax"@),
        DeviceExtensions::with_names(names).ext_shader_stencil_export == names.contains("VK_EXT_shader_stencil_export"@),
        DeviceExtensions::with_names(names).ext_shader_subgroup_ballot == names.contains("VK_EXT_shader_subgroup_ballot"@),
        DeviceExtensions::with_names(names).ext_shader_subgroup_vote == names.contains("VK_EXT_shader_subgroup_vote"@),
        DeviceExtensions::with_names(names).ext_shader_viewport_index_layer == names.contains("VK_EXT_shader_viewport_index_layer"@),
        DeviceExtensions::with_names(names).amd_buffer_marker == names.contains("VK_AMD_buffer_marker"@),
        DeviceExtensions::with_names(names).amd_calibrated_timestamps == names.contains("VK_AMD_calibrated_timestamps"@),
        DeviceExtensions::with_names(names).amd_draw_indirect_count == names.contains("VK_AMD_draw_indirect_count"@),
        DeviceExtensions::with_names(names).amd_gcn_shader == names.contains("VK_AMD_gcn_shader"@),
        DeviceExtensions::with_names(names).amd_gpa_interface == names.contains("VK_AMD_gpa_interface"@),
        DeviceExtensions::with_names(names).amd_gpu_shader_half_float == names.contains("VK_AMD_gpu_shader_half_float"@),
        DeviceExtensions::with_names(names).amd_gpu_shader_half_float_fetch == names.contains("VK_AMD_gpu_shader_half_float_fetch"@),
        DeviceExtensions::with_names(names).amd_gpu_shader_int16 == names.contains("VK_AMD_gpu_shader_int16"@),
        DeviceExtensions::with_names(names).amd_mixed_attachment_samples == names.contains("VK_AMD_mixed_attachment_samples"@),
        DeviceExtensions::with_names(names).amd_rasterization_order == names.contains("VK_AMD_rasterization_order"@),
        DeviceExtensions::with_names(names).amd_shader_ballot == names.contains("VK_AMD_shader_ballot"@),
        DeviceExtensions::with_names(names).amd_shader_core_properties == names.contains("VK_AMD_shader_core_properties"@),
        DeviceExtensions::with_names(names).amd_shader_explicit_vertex_parameter == names.contains("VK_AMD_shader_explicit_vertex_parameter"@),
        DeviceExtensions::with_names(names).amd_shader_fragment_mask == names.contains("VK_AMD_shader_fragment_mask"@),
        DeviceExtensions::with_names(names).amd_shader_image_load_store_lod == names.contains("VK_AMD_shader_image_load_store_lod"@),
        DeviceExtensions::with_names(names).amd_shader_info == names.contains("VK_AMD_shader_info"@),
        DeviceExtensions::with_names(names).amd_shader_trinary_minmax == names.contains("VK_AMD_shader_trinary_minmax"@),
        DeviceExtensions::with_names(names).amd_texture_gather_bias_lod == names.contains("VK_AMD_texture_gather_bias_lod"@),
        DeviceExtensions::with_names(names).amd_wave_limits == names.contains("VK_AMD_wave_limits"@),
{
}

/// Converting a raw set into flags turns on each extension exactly where its
/// name is in the set.
pub proof fn lemma_device_from_raw_by_field(x: &RawDeviceExtensions)
    ensures
        from_raw_spec_device(x).khr_swapchain == x@.contains("VK_KHR_swapchain"@),
        from_raw_spec_device(x).khr_display_swapchain == x@.contains("VK_KHR_display_swapchain"@),
        from_raw_spec_device(x).khr_incremental_present == x@.contains("VK_KHR_incremental_present"@),
        from_raw_spec_device(x).ext_debug_marker == x@.contains("VK_EXT_debug_marker"@),
        from_raw_spec_device(x).khr_dedicated_allocation == x@.contains("VK_KHR_dedicated_allocation"@),
        from_raw_spec_device(x).khr_get_memory_requirements2 == x@.contains("VK_KHR_get_memory_requirements2"@),
        from_raw_spec_device(x).khr_get_physical_device_properties2 == x@.contains("VK_KHR_get_physical_device_properties2"@),
        from_raw_spec_device(x).khr_maintenance1 == x@.contains("VK_KHR_maintenance1"@),
        from_raw_spec_device(x).khr_sampler_mirror_clamp_to_edge == x@.contains("VK_KHR_sampler_mirror_clamp_to_edge"@),
        from_raw_spec_device(x).khr_maintenance2 == x@.contains("VK_KHR_maintenance2"@),
        from_raw_spec_device(x).khr_maintenance3 == x@.contains("VK_KHR_maintenance3"@),
        from_raw_spec_device(x).khr_multiview == x@.contains("VK_KHR_multiview"@),
        from_raw_spec_device(x).khr_bind_memory2 == x@.contains("VK_KHR_bind_memory2"@),
        from_raw_spec_device(x).khr_descriptor_update_template == x@.contains("VK_KHR_descriptor_update_template"@),
        from_raw_spec_device(x).khr_relaxed_block_layout == x@.contains("VK_KHR_relaxed_block_layout"@),
        from_raw_spec_device(x).khr_shader_draw_parameters == x@.contains("VK_KHR_shader_draw_parameters"@),
        from_raw_spec_device(x).khr_storage_buffer_storage_class == x@.contains("VK_KHR_storage_buffer_storage_class"@),
        from_raw_spec_device(x).khr_variable_pointers == x@.contains("VK_KHR_variable_pointers"@),
        from_raw_spec_device(x).khr_16bit_storage == x@.contains("VK_KHR_16bit_storage"@),
        from_raw_spec_device(x).ext_depth_range_unrestricted == x@.contains("VK_EXT_depth_range_unrestricted"@),
        from_raw_spec_device(x).ext_external_memory_host == x@.contains("VK_EXT_external_memory_host"@),
        from_raw_spec_device(x).ext_global_priority == x@.contains("VK_EXT_global_priority"@),
        from_raw_spec_device(x).ext_queue_family_foreign == x@.contains("VK_EXT_queue_family_foreign"@),
        from_raw_spec_device(x).ext_sample_locations == x@.contains("VK_EXT_sample_locations"@),
        from_raw_spec_device(x).ext_sampler_filter_minmax == x@.contains("VK_EXT_sampler_filter_minmax"@),
        from_raw_spec_device(x).ext_shader_stencil_export == x@.contains("VK_EXT_shader_stencil_export"@),
        from_raw_spec_device(x).ext_shader_subgroup_ballot == x@.contains("VK_EXT_shader_subgroup_ballot"@),
        from_raw_spec_device(x).ext_shader_subgroup_vote == x@.contains("VK_EXT_shader_subgroup_vote"@),
        from_raw_spec_device(x).ext_shader_viewport_index_layer == x@.contains("VK_EXT_shader_viewport_index_layer"@),
        from_raw_spec_device(x).amd_buffer_marker == x@.contains("VK_AMD_buffer_marker"@),
        from_raw_spec_device(x).amd_calibrated_timestamps == x@.contains("VK_AMD_calibrated_timestamps"@),
        from_raw_spec_device(x).amd_draw_indirect_count == x@.contains("VK_AMD_draw_indirect_count"@),
        from_raw_spec_device(x).amd_gcn_shader == x@.contains("VK_AMD_gcn_shader"@),
        from_raw_spec_device(x).amd_gpa_interface == x@.contains("VK_AMD_gpa_interface"@),
        from_raw_spec_device(x).amd_gpu_shader_half_float == x@.contains("VK_AMD_gpu_shader_half_float"@),
        from_raw_spec_device(x).amd_gpu_shader_half_float_fetch == x@.contains("VK_AMD_gpu_shader_half_float_fetch"@),
        from_raw_spec_device(x).amd_gpu_shader_int16 == x@.contains("VK_AMD_gpu_shader_int16"@),
        from_raw_spec_device(x).amd_mixed_attachment_samples == x@.contains("VK_AMD_mixed_attachment_samples"@),
        from_raw_spec_device(x).amd_rasterization_order == x@.contains("VK_AMD_rasterization_order"@),
        from_raw_spec_device(x).amd_shader_ballot == x@.contains("VK_AMD_shader_ballot"@),
        from_raw_spec_device(x).amd_shader_core_properties == x@.contains("VK_AMD_shader_core_properties"@),
        from_raw_spec_device(x).amd_shader_explicit_vertex_parameter == x@.contains("VK_AMD_shader_explicit_vertex_parameter"@),
        from_raw_spec_device(x).amd_shader_fragment_mask == x@.contains("VK_AMD_shader_fragment_mask"@),
        from_raw_spec_device(x).amd_shader_image_load_store_lod == x@.contains("VK_AMD_shader_image_load_store_lod"@),
        from_raw_spec_device(x).amd_shader_info == x@.contains("VK_AMD_shader_info"@),
        from_raw_spec_device(x).amd_shader_trinary_minmax == x@.contains("VK_AMD_shader_trinary_minmax"@),
        from_raw_spec_device(x).amd_texture_gather_bias_lod == x@.contains("VK_AMD_texture_gather_bias_lod"@),
        from_raw_spec_device(x).amd_wave_limits == x@.contains("VK_AMD_wave_limits"@),
{
}

/// The text of a list names each enabled extension once, and no other.
pub proof fn lemma_device_listed_names(e: DeviceExtensions)
    ensures
        name_set(e.enabled_list()) == e.enabled_names(),
        names_distinct(e.enabled_list()),
{
    lemma_known_device_names_distinct();
    lemma_device_table(e);
    lemma_selected_names(known_device_names(), e@);
}

/// `==` on lists is equality of their values.
pub proof fn lemma_device_eq_is_equality(a: DeviceExtensions, b: DeviceExtensions)
    ensures
        a.eq_spec(&b) == (a == b),
{
}

/// Two lists are equal exactly where every flag is the same.
#[verifier::spinoff_prover]
pub proof fn lemma_device_eq_by_field(a: DeviceExtensions, b: DeviceExtensions)
    ensures
        (a == b) == (
            a.khr_swapchain == b.khr_swapchain
            && a.khr_display_swapchain == b.khr_display_swapchain
            && a.khr_incremental_present == b.khr_incremental_present
            && a.ext_debug_marker == b.ext_debug_marker
            && a.khr_dedicated_allocation == b.khr_dedicated_allocation
            && a.khr_get_memory_requirements2 == b.khr_get_memory_requirements2
            && a.khr_get_physical_device_properties2 == b.khr_get_physical_device_properties2
            && a.khr_maintenance1 == b.khr_maintenance1
            && a.khr_sampler_mirror_clamp_to_edge == b.khr_sampler_mirror_clamp_to_edge
            && a.khr_maintenance2 == b.khr_maintenance2
            && a.khr_maintenance3 == b.khr_maintenance3
            && a.khr_multiview == b.khr_multiview
            && a.khr_bind_memory2 == b.khr_bind_memory2
            && a.khr_descriptor_update_template == b.khr_descriptor_update_template
            && a.khr_relaxed_block_layout == b.khr_relaxed_block_layout
            && a.khr_shader_draw_parameters == b.khr_shader_draw_parameters
            && a.khr_storage_buffer_storage_class == b.khr_storage_buffer_storage_class
            && a.khr_variable_pointers == b.khr_variable_pointers
            && a.khr_16bit_storage == b.khr_16bit_storage
            && a.ext_depth_range_unrestricted == b.ext_depth_range_unrestricted
            && a.ext_external_memory_host == b.ext_external_memory_host
            && a.ext_global_priority == b.ext_global_priority
            && a.ext_queue_family_foreign == b.ext_queue_family_foreign
            && a.ext_sample_locations == b.ext_sample_locations
            && a.ext_sampler_filter_minmax == b.ext_sampler_filter_minmax
            && a.ext_shader_stencil_export == b.ext_shader_stencil_export
            && a.ext_shader_subgroup_ballot == b.ext_shader_subgroup_ballot
            && a.ext_shader_subgroup_vote == b.ext_shader_subgroup_vote
            && a.ext_shader_viewport_index_layer == b.ext_shader_viewport_index_layer
            && a.amd_buffer_marker == b.amd_buffer_marker
            && a.amd_calibrated_timestamps == b.amd_calibrated_timestamps
            && a.amd_draw_indirect_count == b.amd_draw_indirect_count
            && a.amd_gcn_shader == b.amd_gcn_shader
            && a.amd_gpa_interface == b.amd_gpa_interface
            && a.amd_gpu_shader_half_float == b.amd_gpu_shader_half_float
            && a.amd_gpu_shader_half_float_fetch == b.amd_gpu_shader_half_float_fetch
            && a.amd_gpu_shader_int16 == b.amd_gpu_shader_int16
            && a.amd_mixed_attachment_samples == b.amd_mixed_attachment_samples
            && a.amd_rasterization_order == b.amd_rasterization_order
            && a.amd_shader_ballot == b.amd_shader_ballot
            && a.amd_shader_core_properties == b.amd_shader_core_properties
            && a.amd_shader_explicit_vertex_parameter == b.amd_shader_explicit_vertex_parameter
            && a.amd_shader_fragment_mask == b.amd_shader_fragment_mask
            && a.amd_shader_image_load_store_lod == b.amd_shader_image_load_store_lod
            && a.amd_shader_info == b.amd_shader_info
            && a.amd_shader_trinary_minmax == b.amd_shader_trinary_minmax
            && a.amd_texture_gather_bias_lod == b.amd_texture_gather_bias_lod
            && a.amd_wave_limits == b.amd_wave_limits
        ),
{

    if a.khr_swapchain != b.khr_swapchain {
    } else
    if a.khr_display_swapchain != b.khr_display_swapchain {
    } else
    if a.khr_incremental_present != b.khr_incremental_present {
    } else
    if a.ext_debug_marker != b.ext_debug_marker {
    } else
    if a.khr_dedicated_allocation != b.khr_dedicated_allocation {
    } else
    if a.khr_get_memory_requirements2 != b.khr_get_memory_requirements2 {
    } else
    if a.khr_get_physical_device_properties2 != b.khr_get_physical_device_properties2 {
    } else
    if a.khr_maintenance1 != b.khr_maintenance1 {
    } else
    if a.khr_sampler_mirror_clamp_to_edge != b.khr_sampler_mirror_clamp_to_edge {
    } else
    if a.khr_maintenance2 != b.khr_maintenance2 {
    } else
    if a.khr_maintenance3 != b.khr_maintenance3 {
    } else
    if a.khr_multiview != b.khr_multiview {
    } else
    if a.khr_bind_memory2 != b.khr_bind_memory2 {
    } else
    if a.khr_descriptor_update_template != b.khr_descriptor_update_template {
    } else
    if a.khr_relaxed_block_layout != b.khr_relaxed_block_layout {
    } else
    if a.khr_shader_draw_parameters != b.khr_shader_draw_parameters {
    } else
    if a.khr_storage_buffer_storage_class != b.khr_storage_buffer_storage_class {
    } else
    if a.khr_variable_pointers != b.khr_variable_pointers {
    } else
    if a.khr_16bit_storage != b.khr_16bit_storage {
    } else
    if a.ext_depth_range_unrestricted != b.ext_depth_range_unrestricted {
    } else
    if a.ext_external_memory_host != b.ext_external_memory_host {
    } else
    if a.ext_global_priority != b.ext_global_priority {
    } else
    if a.ext_queue_family_foreign != b.ext_queue_family_foreign {
    } else
    if a.ext_sample_locations != b.ext_sample_locations {
    } else
    if a.ext_sampler_filter_minmax != b.ext_sampler_filter_minmax {
    } else
    if a.ext_shader_stencil_export != b.ext_shader_stencil_export {
    } else
    if a.ext_shader_subgroup_ballot != b.ext_shader_subgroup_ballot {
    } else
    if a.ext_shader_subgroup_vote != b.ext_shader_subgroup_vote {
    } else
    if a.ext_shader_viewport_index_layer != b.ext_shader_viewport_index_layer {
    } else
    if a.amd_buffer_marker != b.amd_buffer_marker {
    } else
    if a.amd_calibrated_timestamps != b.amd_calibrated_timestamps {
    } else
    if a.amd_draw_indirect_count != b.amd_draw_indirect_count {
    } else
    if a.amd_gcn_shader != b.amd_gcn_shader {
    } else
    if a.amd_gpa_interface != b.amd_gpa_interface {
    } else
    if a.amd_gpu_shader_half_float != b.amd_gpu_shader_half_float {
    } else
    if a.amd_gpu_shader_half_float_fetch != b.amd_gpu_shader_half_float_fetch {
    } else
    if a.amd_gpu_shader_int16 != b.amd_gpu_shader_int16 {
    } else
    if a.amd_mixed_attachment_samples != b.amd_mixed_attachment_samples {
    } else
    if a.amd_rasterization_order != b.amd_rasterization_order {
    } else
    if a.amd_shader_ballot != b.amd_shader_ballot {
    } else
    if a.amd_shader_core_properties != b.amd_shader_core_properties {
    } else
    if a.amd_shader_explicit_vertex_parameter != b.amd_shader_explicit_vertex_parameter {
    } else
    if a.amd_shader_fragment_mask != b.amd_shader_fragment_mask {
    } else
    if a.amd_shader_image_load_store_lod != b.amd_shader_image_load_store_lod {
    } else
    if a.amd_shader_info != b.amd_shader_info {
    } else
    if a.amd_shader_trinary_minmax != b.amd_shader_trinary_minmax {
    } else
    if a.amd_texture_gather_bias_lod != b.amd_texture_gather_bias_lod {
    } else
    if a.amd_wave_limits != b.amd_wave_limits {
    } else
    {
        lemma_unbuildable_unique(a._unbuildable, b._unbuildable);
        assert(a == b);
    }
}

/// Two raw sets are equal exactly where they hold the same names; so
/// equality is symmetric.
pub proof fn lemma_raw_device_eq(a: RawDeviceExtensions, b: RawDeviceExtensions)
    ensures
        a.eq_spec(&b) == (a@ == b@),
        a.eq_spec(&b) == b.eq_spec(&a),
{
}

/// What converting a raw set into flags gives.
pub open spec fn from_raw_spec_device(x: &RawDeviceExtensions) -> DeviceExtensions {
    let r: DeviceExtensions = FromSpec::from_spec(x);
    r
}

} // verus!

