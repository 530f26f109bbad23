//! The set of runtime extensions that is enumerated, asked for and enabled.

use crate::backend::GraphicsBackend;
use vstd::prelude::*;

verus! {

/// A set of OpenXR extensions, held as the binding's own record of flags.
///
/// Two of the flags decide which graphics backends can be used; the library
/// reads and sets those. All the others are carried through untouched.
pub struct XrExtensions(pub openxr::ExtensionSet);

impl XrExtensions {
    /// Whether the set holds the extension that `backend` cannot work without.
    pub open spec fn enables(&self, backend: GraphicsBackend) -> bool {
        match backend {
            GraphicsBackend::Vulkan => self.0.khr_vulkan_enable2,
            GraphicsBackend::OpenGl => self.0.khr_opengl_enable,
        }
    }

    /// The backends whose required extension the set holds.
    pub open spec fn backends(&self) -> Set<GraphicsBackend> {
        Set::new(|b: GraphicsBackend| self.enables(b))
    }

    /// Whether two sets agree on every extension that no backend requires:
    /// on the names in `other` and on each flag that the binding has on every
    /// platform.
    pub open spec fn same_device_extensions(&self, other: &XrExtensions) -> bool {
        &&& self.0.other == other.0.other
        &&& self.0.almalence_digital_lens_control == other.0.almalence_digital_lens_control
        &&& self.0.bd_controller_interaction == other.0.bd_controller_interaction
        &&& self.0.epic_view_configuration_fov == other.0.epic_view_configuration_fov
        &&& self.0.ext_performance_settings == other.0.ext_performance_settings
        &&& self.0.ext_thermal_query == other.0.ext_thermal_query
        &&& self.0.ext_debug_utils == other.0.ext_debug_utils
        &&& self.0.ext_eye_gaze_interaction == other.0.ext_eye_gaze_interaction
        &&& self.0.ext_view_configuration_depth_range == other.0.ext_view_configuration_depth_range
        &&& self.0.ext_conformance_automation == other.0.ext_conformance_automation
        &&& self.0.ext_hand_tracking == other.0.ext_hand_tracking
        &&& self.0.ext_dpad_binding == other.0.ext_dpad_binding
        &&& self.0.ext_hand_joints_motion_range == other.0.ext_hand_joints_motion_range
        &&& self.0.ext_samsung_odyssey_controller == other.0.ext_samsung_odyssey_controller
        &&& self.0.ext_hp_mixed_reality_controller == other.0.ext_hp_mixed_reality_controller
        &&& self.0.ext_palm_pose == other.0.ext_palm_pose
        &&& self.0.ext_uuid == other.0.ext_uuid
        &&& self.0.ext_hand_interaction == other.0.ext_hand_interaction
        &&& self.0.ext_active_action_set_priority == other.0.ext_active_action_set_priority
        &&& self.0.ext_local_floor == other.0.ext_local_floor
        &&& self.0.ext_hand_tracking_data_source == other.0.ext_hand_tracking_data_source
        &&& self.0.ext_plane_detection == other.0.ext_plane_detection
        &&& self.0.fb_composition_layer_image_layout == other.0.fb_composition_layer_image_layout
        &&& self.0.fb_composition_layer_alpha_blend == other.0.fb_composition_layer_alpha_blend
        &&& self.0.fb_swapchain_update_state == other.0.fb_swapchain_update_state
        &&& self.0.fb_composition_layer_secure_content == other.0.fb_composition_layer_secure_content
        &&& self.0.fb_body_tracking == other.0.fb_body_tracking
        &&& self.0.fb_display_refresh_rate == other.0.fb_display_refresh_rate
        &&& self.0.fb_color_space == other.0.fb_color_space
        &&& self.0.fb_hand_tracking_mesh == other.0.fb_hand_tracking_mesh
        &&& self.0.fb_hand_tracking_aim == other.0.fb_hand_tracking_aim
        &&& self.0.fb_hand_tracking_capsules == other.0.fb_hand_tracking_capsules
        &&& self.0.fb_spatial_entity == other.0.fb_spatial_entity
        &&& self.0.fb_foveation == other.0.fb_foveation
        &&& self.0.fb_foveation_configuration == other.0.fb_foveation_configuration
        &&& self.0.fb_keyboard_tracking == other.0.fb_keyboard_tracking
        &&& self.0.fb_triangle_mesh == other.0.fb_triangle_mesh
        &&& self.0.fb_passthrough == other.0.fb_passthrough
        &&& self.0.fb_render_model == other.0.fb_render_model
        &&& self.0.fb_spatial_entity_query == other.0.fb_spatial_entity_query
        &&& self.0.fb_spatial_entity_storage == other.0.fb_spatial_entity_storage
        &&& self.0.fb_foveation_vulkan == other.0.fb_foveation_vulkan
        &&& self.0.fb_swapchain_update_state_opengl_es == other.0.fb_swapchain_update_state_opengl_es
        &&& self.0.fb_swapchain_update_state_vulkan == other.0.fb_swapchain_update_state_vulkan
        &&& self.0.fb_touch_controller_pro == other.0.fb_touch_controller_pro
        &&& self.0.fb_spatial_entity_sharing == other.0.fb_spatial_entity_sharing
        &&& self.0.fb_space_warp == other.0.fb_space_warp
        &&& self.0.fb_haptic_amplitude_envelope == other.0.fb_haptic_amplitude_envelope
        &&& self.0.fb_scene == other.0.fb_scene
        &&& self.0.fb_scene_capture == other.0.fb_scene_capture
        &&& self.0.fb_spatial_entity_container == other.0.fb_spatial_entity_container
        &&& self.0.fb_face_tracking == other.0.fb_face_tracking
        &&& self.0.fb_eye_tracking_social == other.0.fb_eye_tracking_social
        &&& self.0.fb_passthrough_keyboard_hands == other.0.fb_passthrough_keyboard_hands
        &&& self.0.fb_composition_layer_settings == other.0.fb_composition_layer_settings
        &&& self.0.fb_touch_controller_proximity == other.0.fb_touch_controller_proximity
        &&& self.0.fb_haptic_pcm == other.0.fb_haptic_pcm
        &&& self.0.fb_composition_layer_depth_test == other.0.fb_composition_layer_depth_test
        &&& self.0.fb_spatial_entity_storage_batch == other.0.fb_spatial_entity_storage_batch
        &&& self.0.fb_spatial_entity_user == other.0.fb_spatial_entity_user
        &&& self.0.htc_vive_cosmos_controller_interaction == other.0.htc_vive_cosmos_controller_interaction
        &&& self.0.htc_facial_tracking == other.0.htc_facial_tracking
        &&& self.0.htc_vive_focus3_controller_interaction == other.0.htc_vive_focus3_controller_interaction
        &&& self.0.htc_hand_interaction == other.0.htc_hand_interaction
        &&& self.0.htc_vive_wrist_tracker_interaction == other.0.htc_vive_wrist_tracker_interaction
        &&& self.0.htc_passthrough == other.0.htc_passthrough
        &&& self.0.htc_foveation == other.0.htc_foveation
        &&& self.0.huawei_controller_interaction == other.0.huawei_controller_interaction
        &&& self.0.khr_composition_layer_cube == other.0.khr_composition_layer_cube
        &&& self.0.khr_composition_layer_depth == other.0.khr_composition_layer_depth
        &&& self.0.khr_vulkan_swapchain_format_list == other.0.khr_vulkan_swapchain_format_list
        &&& self.0.khr_composition_layer_cylinder == other.0.khr_composition_layer_cylinder
        &&& self.0.khr_composition_layer_equirect == other.0.khr_composition_layer_equirect
        &&& self.0.khr_opengl_es_enable == other.0.khr_opengl_es_enable
        &&& self.0.khr_vulkan_enable == other.0.khr_vulkan_enable
        &&& self.0.khr_visibility_mask == other.0.khr_visibility_mask
        &&& self.0.khr_composition_layer_color_scale_bias == other.0.khr_composition_layer_color_scale_bias
        &&& self.0.khr_convert_timespec_time == other.0.khr_convert_timespec_time
        &&& self.0.khr_loader_init == other.0.khr_loader_init
        &&& self.0.khr_composition_layer_equirect2 == other.0.khr_composition_layer_equirect2
        &&& self.0.khr_binding_modification == other.0.khr_binding_modification
        &&& self.0.khr_swapchain_usage_input_attachment_bit == other.0.khr_swapchain_usage_input_attachment_bit
        &&& self.0.meta_foveation_eye_tracked == other.0.meta_foveation_eye_tracked
        &&& self.0.meta_local_dimming == other.0.meta_local_dimming
        &&& self.0.meta_passthrough_preferences == other.0.meta_passthrough_preferences
        &&& self.0.meta_virtual_keyboard == other.0.meta_virtual_keyboard
        &&& self.0.meta_vulkan_swapchain_create_info == other.0.meta_vulkan_swapchain_create_info
        &&& self.0.meta_performance_metrics == other.0.meta_performance_metrics
        &&& self.0.meta_headset_id == other.0.meta_headset_id
        &&& self.0.meta_passthrough_color_lut == other.0.meta_passthrough_color_lut
        &&& self.0.ml_ml2_controller_interaction == other.0.ml_ml2_controller_interaction
        &&& self.0.ml_frame_end_info == other.0.ml_frame_end_info
        &&& self.0.ml_global_dimmer == other.0.ml_global_dimmer
        &&& self.0.ml_compat == other.0.ml_compat
        &&& self.0.ml_user_calibration == other.0.ml_user_calibration
        &&& self.0.mnd_headless == other.0.mnd_headless
        &&& self.0.mnd_swapchain_usage_input_attachment_bit == other.0.mnd_swapchain_usage_input_attachment_bit
        &&& self.0.msft_unbounded_reference_space == other.0.msft_unbounded_reference_space
        &&& self.0.msft_spatial_anchor == other.0.msft_spatial_anchor
        &&& self.0.msft_spatial_graph_bridge == other.0.msft_spatial_graph_bridge
        &&& self.0.msft_hand_interaction == other.0.msft_hand_interaction
        &&& self.0.msft_hand_tracking_mesh == other.0.msft_hand_tracking_mesh
        &&& self.0.msft_secondary_view_configuration == other.0.msft_secondary_view_configuration
        &&& self.0.msft_first_person_observer == other.0.msft_first_person_observer
        &&& self.0.msft_controller_model == other.0.msft_controller_model
        &&& self.0.msft_composition_layer_reprojection == other.0.msft_composition_layer_reprojection
        &&& self.0.msft_spatial_anchor_persistence == other.0.msft_spatial_anchor_persistence
        &&& self.0.oculus_audio_device_guid == other.0.oculus_audio_device_guid
        &&& self.0.oculus_external_camera == other.0.oculus_external_camera
        &&& self.0.oppo_controller_interaction == other.0.oppo_controller_interaction
        &&& self.0.qcom_tracking_optimization_settings == other.0.qcom_tracking_optimization_settings
        &&& self.0.ultraleap_hand_tracking_forearm == other.0.ultraleap_hand_tracking_forearm
        &&& self.0.valve_analog_threshold == other.0.valve_analog_threshold
        &&& self.0.varjo_quad_views == other.0.varjo_quad_views
        &&& self.0.varjo_foveated_rendering == other.0.varjo_foveated_rendering
        &&& self.0.varjo_composition_layer_depth_test == other.0.varjo_composition_layer_depth_test
        &&& self.0.varjo_environment_depth_estimation == other.0.varjo_environment_depth_estimation
        &&& self.0.varjo_marker_tracking == other.0.varjo_marker_tracking
        &&& self.0.varjo_view_offset == other.0.varjo_view_offset
        &&& self.0.yvr_controller_interaction == other.0.yvr_controller_interaction
    }

    /// Whether the set holds the extension that `backend` cannot work without.
    pub fn has_backend(&self, backend: GraphicsBackend) -> (r: bool)
        ensures
            r == self.enables(backend),
    {
        match backend {
            GraphicsBackend::Vulkan => self.0.khr_vulkan_enable2,
            GraphicsBackend::OpenGl => self.0.khr_opengl_enable,
        }
    }

    /// Adds the extension that `backend` requires; everything else stays.
    pub fn require_backend(&mut self, backend: GraphicsBackend)
        ensures
            forall|b: GraphicsBackend|
                #[trigger] final(self).enables(b) == (old(self).enables(b) || b == backend),
            final(self).backends() == old(self).backends().insert(backend),
            final(self).same_device_extensions(old(self)),
    {
        match backend {
            GraphicsBackend::Vulkan => {
                self.0.khr_vulkan_enable2 = true;
            },
            GraphicsBackend::OpenGl => {
                self.0.khr_opengl_enable = true;
            },
        }
        assert(self.backends() =~= old(self).backends().insert(backend));
    }
}

} // verus!
