//! Smart home: platforms, devices, rooms, scenes and automations.

use vstd::prelude::*;
use crate::http::{delete_request, empty_object, get_request, json_request, opt_pair, path_end, path_with, ApiRequest, HttpMethod, Query};
use crate::json::{opt_str, Json};
use crate::url::url_encoded;

verus! {

/// Plans the calls of the smart-home service.
pub struct SmartHomeService;

/// Filters for [`SmartHomeService::list_devices`].
#[derive(Default, Debug, Clone, Copy)]
pub struct ListDevicesOptions<'a> {
    pub platform_id: Option<&'a str>,
    pub room_id: Option<&'a str>,
}

impl SmartHomeService {
    /// The connected platforms.
    pub fn list_platforms(&self) -> (r: ApiRequest)
        ensures
            r@ == get_request("/smart-home/platforms"@, seq![]),
    {
        ApiRequest::get_plain("/smart-home/platforms".to_owned())
    }

    /// List devices with the given filters.
    pub fn list_devices(&self, opts: ListDevicesOptions<'_>) -> (r: ApiRequest)
        ensures
            r@ == get_request(
                "/smart-home/devices"@,
                opt_pair("platform_id"@, opt_str(opts.platform_id)) + opt_pair("room_id"@, opt_str(opts.room_id)),
            ),
    {
        let mut q = Query::new();
        q.push_opt("platform_id", opts.platform_id);
        q.push_opt("room_id", opts.room_id);
        assert(q@ =~= opt_pair("platform_id"@, opt_str(opts.platform_id)) + opt_pair("room_id"@, opt_str(opts.room_id)));
        ApiRequest::get("/smart-home/devices".to_owned(), q)
    }

    /// One device.
    pub fn get_device(&self, device_id: &str) -> (r: ApiRequest)
        ensures
            r@ == get_request("/smart-home/devices/"@ + url_encoded(device_id@), seq![]),
    {
        ApiRequest::get_plain(path_end("/smart-home/devices/", device_id))
    }

    /// Send a command to a device.
    pub fn control_device(&self, device_id: &str, command: Json) -> (r: ApiRequest)
        ensures
            r@ == json_request(HttpMethod::Post, "/smart-home/devices/"@ + url_encoded(device_id@) + "/control"@, command@),
    {
        ApiRequest::post(path_with("/smart-home/devices/", device_id, "/control"), command)
    }

    /// The rooms.
    pub fn list_rooms(&self) -> (r: ApiRequest)
        ensures
            r@ == get_request("/smart-home/rooms"@, seq![]),
    {
        ApiRequest::get_plain("/smart-home/rooms".to_owned())
    }

    /// The scenes.
    pub fn list_scenes(&self) -> (r: ApiRequest)
        ensures
            r@ == get_request("/smart-home/scenes"@, seq![]),
    {
        ApiRequest::get_plain("/smart-home/scenes".to_owned())
    }

    /// Activate a scene.
    pub fn activate_scene(&self, scene_id: &str) -> (r: ApiRequest)
        ensures
            r@ == json_request(HttpMethod::Post, "/smart-home/scenes/"@ + url_encoded(scene_id@) + "/activate"@, empty_object()),
    {
        ApiRequest::post_empty(path_with("/smart-home/scenes/", scene_id, "/activate"))
    }

    /// Create a scene.
    pub fn create_scene(&self, scene: Json) -> (r: ApiRequest)
        ensures
            r@ == json_request(HttpMethod::Post, "/smart-home/scenes"@, scene@),
    {
        ApiRequest::post("/smart-home/scenes".to_owned(), scene)
    }

    /// Delete a scene.
    pub fn delete_scene(&self, scene_id: &str) -> (r: ApiRequest)
        ensures
            r@ == delete_request("/smart-home/scenes/"@ + url_encoded(scene_id@)),
    {
        ApiRequest::delete(path_end("/smart-home/scenes/", scene_id))
    }

    /// The automations.
    pub fn list_automations(&self) -> (r: ApiRequest)
        ensures
            r@ == get_request("/smart-home/automations"@, seq![]),
    {
        ApiRequest::get_plain("/smart-home/automations".to_owned())
    }

    /// Create an automation.
    pub fn create_automation(&self, automation: Json) -> (r: ApiRequest)
        ensures
            r@ == json_request(HttpMethod::Post, "/smart-home/automations"@, automation@),
    {
        ApiRequest::post("/smart-home/automations".to_owned(), automation)
    }

    /// Delete an automation.
    pub fn delete_automation(&self, automation_id: &str) -> (r: ApiRequest)
        ensures
            r@ == delete_request("/smart-home/automations/"@ + url_encoded(automation_id@)),
    {
        ApiRequest::delete(path_end("/smart-home/automations/", automation_id))
    }
}

} // verus!
