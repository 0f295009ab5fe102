//! The result each call kind expects, read from a reply's `result` value.
//!
//! | call              | result                  |
//! |-------------------|-------------------------|
//! | `auth`            | [`ResponseStatus`]      |
//! | `get_status`      | [`ResponseStatus`]      |
//! | `get_options`     | [`ResponseStatus`]      |
//! | `delete_upf`      | [`ResponseDelete`]      |
//! | `get_upf_infos`   | [`ResponseGetUpfInfos`] |
//! | `get_option_list` | `ResponseGetOptionList` |
//! | `get_option`      | `ResponseGetOption`     |
//! | `capture`         | [`ResponseCapture`]     |
use vstd::prelude::*;
use crate::json::{
    Json, JsonNumber, Decode, field, field_as, decode_field, get_field, list_of, list_reads,
    decode_list,
};

verus! {

/// Space on one storage device.
#[derive(Debug)]
pub struct Storage {
    pub total: u64,
    pub usage: u64,
}

impl Decode for Storage {
    open spec fn decoded(j: Json) -> Option<Storage> {
        match (field_as::<u64>(j, "total"@), field_as::<u64>(j, "usage"@)) {
            (Some(total), Some(usage)) => Some(Storage { total, usage }),
            _ => None,
        }
    }

    fn decode(j: &Json) -> (r: Option<Storage>) {
        match (decode_field(j, "total"), decode_field(j, "usage")) {
            (Some(total), Some(usage)) => Some(Storage { total, usage }),
            _ => None,
        }
    }
}

/// `m` is the object `j`, each member's value read as a [`Storage`].
pub open spec fn storage_of(j: Json, m: Seq<(String, Storage)>) -> bool {
    match j {
        Json::Object(ms) => ms@.len() == m.len() && forall|i: int|
            0 <= i < m.len() ==> #[trigger] m[i].0 == ms@[i].0 && Storage::decoded(ms@[i].1) == Some(
                m[i].1,
            ),
        _ => false,
    }
}

pub open spec fn storage_reads(j: Json) -> bool {
    match j {
        Json::Object(ms) => forall|i: int|
            0 <= i < ms@.len() ==> (Storage::decoded(#[trigger] ms@[i].1) is Some),
        _ => false,
    }
}

/// Reads the storage table: device name to its space.
pub fn decode_storage(j: &Json) -> (r: Option<Vec<(String, Storage)>>)
    ensures
        r is Some <==> storage_reads(*j),
        r matches Some(m) ==> storage_of(*j, m@),
{
    match j {
        Json::Object(ms) => {
            let mut out: Vec<(String, Storage)> = Vec::new();
            let mut i: usize = 0;
            while i < ms.len()
                invariant
                    *j == Json::Object(*ms),
                    i <= ms@.len(),
                    out@.len() == i,
                    forall|k: int|
                        0 <= k < i ==> #[trigger] out@[k].0 == ms@[k].0 && Storage::decoded(
                            ms@[k].1,
                        ) == Some(out@[k].1),
                    forall|k: int| 0 <= k < i ==> (Storage::decoded(#[trigger] ms@[k].1) is Some),
                decreases ms@.len() - i,
            {
                match Storage::decode(&ms[i].1) {
                    Some(s) => {
                        out.push((ms[i].0.clone(), s));
                    },
                    None => {
                        assert(!storage_reads(*j)) by {
                            assert(match Json::Object(*ms) {
                                Json::Object(b) => b@ == ms@,
                                _ => false,
                            });
                        }
                        return None;
                    },
                }
                i = i + 1;
            }
            assert(match Json::Object(*ms) {
                Json::Object(b) => b@ == ms@,
                _ => false,
            });
            Some(out)
        },
        _ => None,
    }
}

/// The device's state, returned by `auth`, `get_status` and `get_options`.
#[derive(Debug)]
pub struct ResponseStatus {
    pub auth_token: String,
    pub capture_available: bool,
    pub current_time: String,
    pub device_id: String,
    pub firmware_update_url: String,
    pub firmware_version: String,
    pub is_auth: bool,
    pub serial_number: String,
    pub storage: Vec<(String, Storage)>,
    pub update_ready: bool,
}

/// `r` is what `j` reads as: every member present with its type.
pub open spec fn is_status(j: Json, r: ResponseStatus) -> bool {
    &&& field_as::<String>(j, "auth_token"@) == Some(r.auth_token)
    &&& field_as::<bool>(j, "capture_available"@) == Some(r.capture_available)
    &&& field_as::<String>(j, "current_time"@) == Some(r.current_time)
    &&& field_as::<String>(j, "device_id"@) == Some(r.device_id)
    &&& field_as::<String>(j, "firmware_update_url"@) == Some(r.firmware_update_url)
    &&& field_as::<String>(j, "firmware_version"@) == Some(r.firmware_version)
    &&& field_as::<bool>(j, "is_auth"@) == Some(r.is_auth)
    &&& field_as::<String>(j, "serial_number"@) == Some(r.serial_number)
    &&& field(j, "storage"@) matches Some(s) && storage_of(s, r.storage@)
    &&& field_as::<bool>(j, "update_ready"@) == Some(r.update_ready)
}

pub open spec fn status_reads(j: Json) -> bool {
    &&& field_as::<String>(j, "auth_token"@) is Some
    &&& field_as::<bool>(j, "capture_available"@) is Some
    &&& field_as::<String>(j, "current_time"@) is Some
    &&& field_as::<String>(j, "device_id"@) is Some
    &&& field_as::<String>(j, "firmware_update_url"@) is Some
    &&& field_as::<String>(j, "firmware_version"@) is Some
    &&& field_as::<bool>(j, "is_auth"@) is Some
    &&& field_as::<String>(j, "serial_number"@) is Some
    &&& field(j, "storage"@) matches Some(s) && storage_reads(s)
    &&& field_as::<bool>(j, "update_ready"@) is Some
}

/// Reads a status result.
pub fn decode_status(j: &Json) -> (r: Option<ResponseStatus>)
    ensures
        r is Some <==> status_reads(*j),
        r matches Some(s) ==> is_status(*j, s),
{
    let storage = match get_field(j, "storage") {
        Some(s) => decode_storage(s),
        None => None,
    };
    match (
        decode_field(j, "auth_token"),
        decode_field(j, "capture_available"),
        decode_field(j, "current_time"),
        decode_field(j, "device_id"),
        decode_field(j, "firmware_update_url"),
        decode_field(j, "firmware_version"),
        decode_field(j, "is_auth"),
        decode_field(j, "serial_number"),
        storage,
        decode_field(j, "update_ready"),
    ) {
        (
            Some(auth_token),
            Some(capture_available),
            Some(current_time),
            Some(device_id),
            Some(firmware_update_url),
            Some(firmware_version),
            Some(is_auth),
            Some(serial_number),
            Some(storage),
            Some(update_ready),
        ) => Some(
            ResponseStatus {
                auth_token,
                capture_available,
                current_time,
                device_id,
                firmware_update_url,
                firmware_version,
                is_auth,
                serial_number,
                storage,
                update_ready,
            },
        ),
        _ => None,
    }
}

/// The result of `delete_upf`: which of the two files went.
#[derive(Debug)]
pub struct ResponseDelete {
    pub panorama: bool,
    pub preview: bool,
}

impl Decode for ResponseDelete {
    open spec fn decoded(j: Json) -> Option<ResponseDelete> {
        match (field_as::<bool>(j, "panorama"@), field_as::<bool>(j, "preview"@)) {
            (Some(panorama), Some(preview)) => Some(ResponseDelete { panorama, preview }),
            _ => None,
        }
    }

    fn decode(j: &Json) -> (r: Option<ResponseDelete>) {
        match (decode_field(j, "panorama"), decode_field(j, "preview")) {
            (Some(panorama), Some(preview)) => Some(ResponseDelete { panorama, preview }),
            _ => None,
        }
    }
}

/// One stored capture, as `get_upf_infos` lists it.
#[derive(Debug)]
pub struct UpfInfo {
    pub capture_date: String,
    pub image_id: String,
    pub preview_url: String,
    pub size: u64,
    pub upf_url: String,
}

impl Decode for UpfInfo {
    open spec fn decoded(j: Json) -> Option<UpfInfo> {
        match (
            field_as::<String>(j, "capture_date"@),
            field_as::<String>(j, "image_id"@),
            field_as::<String>(j, "preview_url"@),
            field_as::<u64>(j, "size"@),
            field_as::<String>(j, "upf_url"@),
        ) {
            (Some(capture_date), Some(image_id), Some(preview_url), Some(size), Some(upf_url)) => Some(
                UpfInfo { capture_date, image_id, preview_url, size, upf_url },
            ),
            _ => None,
        }
    }

    fn decode(j: &Json) -> (r: Option<UpfInfo>) {
        match (
            decode_field(j, "capture_date"),
            decode_field(j, "image_id"),
            decode_field(j, "preview_url"),
            decode_field(j, "size"),
            decode_field(j, "upf_url"),
        ) {
            (Some(capture_date), Some(image_id), Some(preview_url), Some(size), Some(upf_url)) => Some(
                UpfInfo { capture_date, image_id, preview_url, size, upf_url },
            ),
            _ => None,
        }
    }
}

/// The result of `get_upf_infos`.
#[derive(Debug)]
pub struct ResponseGetUpfInfos {
    pub is_full: bool,
    pub upf_infos: Vec<UpfInfo>,
}

pub open spec fn is_upf_infos(j: Json, r: ResponseGetUpfInfos) -> bool {
    &&& field_as::<bool>(j, "is_full"@) == Some(r.is_full)
    &&& field(j, "upf_infos"@) matches Some(l) && list_of(l, r.upf_infos@)
}

pub open spec fn upf_infos_read(j: Json) -> bool {
    &&& field_as::<bool>(j, "is_full"@) is Some
    &&& field(j, "upf_infos"@) matches Some(l) && list_reads::<UpfInfo>(l)
}

/// Reads a `get_upf_infos` result.
pub fn decode_upf_infos(j: &Json) -> (r: Option<ResponseGetUpfInfos>)
    ensures
        r is Some <==> upf_infos_read(*j),
        r matches Some(u) ==> is_upf_infos(*j, u),
{
    let upf_infos = match get_field(j, "upf_infos") {
        Some(l) => decode_list(l),
        None => None,
    };
    match (decode_field(j, "is_full"), upf_infos) {
        (Some(is_full), Some(upf_infos)) => Some(ResponseGetUpfInfos { is_full, upf_infos }),
        _ => None,
    }
}

/// The settings a capture was taken with. Exposure time and trigger delay
/// are numbers of any kind.
#[derive(Debug)]
pub struct CaptureOptions {
    pub auto_exposure: bool,
    pub color_temperatue: String,
    pub exposure_time: JsonNumber,
    pub iso: String,
    pub trigger_delay: JsonNumber,
}

impl Decode for CaptureOptions {
    open spec fn decoded(j: Json) -> Option<CaptureOptions> {
        match (
            field_as::<bool>(j, "AutoExposure"@),
            field_as::<String>(j, "ColorTemperature"@),
            field_as::<JsonNumber>(j, "ExposureTime"@),
            field_as::<String>(j, "ISO"@),
            field_as::<JsonNumber>(j, "TriggerDelay"@),
        ) {
            (Some(auto_exposure), Some(color_temperatue), Some(exposure_time), Some(iso), Some(trigger_delay)) => Some(
                CaptureOptions { auto_exposure, color_temperatue, exposure_time, iso, trigger_delay },
            ),
            _ => None,
        }
    }

    fn decode(j: &Json) -> (r: Option<CaptureOptions>) {
        match (
            decode_field(j, "AutoExposure"),
            decode_field(j, "ColorTemperature"),
            decode_field(j, "ExposureTime"),
            decode_field(j, "ISO"),
            decode_field(j, "TriggerDelay"),
        ) {
            (Some(auto_exposure), Some(color_temperatue), Some(exposure_time), Some(iso), Some(trigger_delay)) => Some(
                CaptureOptions { auto_exposure, color_temperatue, exposure_time, iso, trigger_delay },
            ),
            _ => None,
        }
    }
}

/// The result of `capture`.
#[derive(Debug)]
pub struct ResponseCapture {
    pub capture_available: bool,
    pub options: CaptureOptions,
}

impl Decode for ResponseCapture {
    open spec fn decoded(j: Json) -> Option<ResponseCapture> {
        match (field_as::<bool>(j, "capture_available"@), field_as::<CaptureOptions>(j, "options"@)) {
            (Some(capture_available), Some(options)) => Some(ResponseCapture { capture_available, options }),
            _ => None,
        }
    }

    fn decode(j: &Json) -> (r: Option<ResponseCapture>) {
        match (decode_field(j, "capture_available"), decode_field(j, "options")) {
            (Some(capture_available), Some(options)) => Some(ResponseCapture { capture_available, options }),
            _ => None,
        }
    }
}

} // verus!
