//! The schema of a forecast response: which members each entity must have
//! and of what kind, how a JSON document is decoded into the entities, and
//! when decoding fails.
//!
//! Decoding is strict, and all or nothing. Every member named here is
//! mandatory; a document that lacks one, holds another kind of value under
//! its key, or has a member that the schema does not name, does not decode,
//! and nothing is put in its place. A count that does not fit the width of
//! its field does not decode either.

use crate::fields::{
    has_member_count, i32_at, i32_field, i64_at, i64_field, quantity_at, quantity_field,
    text_at, text_field, u32_at, u32_field,
};
use crate::json::{
    items_of, json_document, json_items, json_keys, json_member, json_view, json_views, member,
    parse_value, Json,
};
use crate::model::{
    forecast_day_views, hour_views, AirQuality, AirQualityView, Astro, AstroView, Condition,
    ConditionView, Current, CurrentView, Day, DayView, Forecast, ForecastDay, ForecastDayView,
    ForecastView, Hour, HourView, Location, LocationView, WeatherData, WeatherDataView,
};
use serde_json::Value;
use vstd::prelude::*;
use vstd::set_lib::lemma_subset_equality;

verus! {

/// The one failure of decoding: the text is no JSON document, or the document
/// does not have the shape of a forecast response.
#[derive(Debug, Clone, Copy, PartialEq, Eq)]
pub struct DeserializationFailure {}

impl DeserializationFailure {
    /// The words that report the failure.
    pub fn message(&self) -> (r: &'static str)
        ensures
            r@ == "Failed to parse Json to the structs"@,
    {
        "Failed to parse Json to the structs"
    }
}

/// The keys of the members that an `AirQuality` must have.
pub open spec fn air_quality_keys() -> Set<Seq<char>> {
    set![
        "co"@,
        "no2"@,
        "o3"@,
        "so2"@,
        "pm2_5"@,
        "pm10"@,
        "us-epa-index"@,
        "gb-defra-index"@,
    ]
}

/// Whether a document is an object with every member of an `AirQuality`, each of
/// its kind, and no other member.
pub open spec fn air_quality_conforms(j: Json) -> bool {
    &&& json_keys(j) == Some(air_quality_keys())
    &&& quantity_at(j, "co"@) is Some
    &&& quantity_at(j, "no2"@) is Some
    &&& quantity_at(j, "o3"@) is Some
    &&& quantity_at(j, "so2"@) is Some
    &&& quantity_at(j, "pm2_5"@) is Some
    &&& quantity_at(j, "pm10"@) is Some
    &&& i32_at(j, "us-epa-index"@) is Some
    &&& i32_at(j, "gb-defra-index"@) is Some
}

/// The `AirQuality` that a document of its shape holds.
pub open spec fn air_quality_value(j: Json) -> AirQualityView {
    AirQualityView {
        co: quantity_at(j, "co"@)->0,
        no2: quantity_at(j, "no2"@)->0,
        o3: quantity_at(j, "o3"@)->0,
        so2: quantity_at(j, "so2"@)->0,
        pm2_5: quantity_at(j, "pm2_5"@)->0,
        pm10: quantity_at(j, "pm10"@)->0,
        us_epa_index: i32_at(j, "us-epa-index"@)->0,
        gb_defra_index: i32_at(j, "gb-defra-index"@)->0,
    }
}

/// The `AirQuality` that a document decodes to; `None` where it does not have the
/// shape of one.
pub open spec fn air_quality_of(j: Json) -> Option<AirQualityView> {
    if air_quality_conforms(j) {
        Some(air_quality_value(j))
    } else {
        None
    }
}

/// The `AirQuality` under a key.
pub open spec fn air_quality_at(j: Json, key: Seq<char>) -> Option<AirQualityView> {
    match json_member(j, key) {
        Some(m) => air_quality_of(m),
        None => None,
    }
}

/// The keys of the members that a `Condition` must have.
pub open spec fn condition_keys() -> Set<Seq<char>> {
    set![
        "text"@,
        "icon"@,
        "code"@,
    ]
}

/// Whether a document is an object with every member of a `Condition`, each of
/// its kind, and no other member.
pub open spec fn condition_conforms(j: Json) -> bool {
    &&& json_keys(j) == Some(condition_keys())
    &&& text_at(j, "text"@) is Some
    &&& text_at(j, "icon"@) is Some
    &&& i32_at(j, "code"@) is Some
}

/// The `Condition` that a document of its shape holds.
pub open spec fn condition_value(j: Json) -> ConditionView {
    ConditionView {
        text: text_at(j, "text"@)->0,
        icon: text_at(j, "icon"@)->0,
        code: i32_at(j, "code"@)->0,
    }
}

/// The `Condition` that a document decodes to; `None` where it does not have the
/// shape of one.
pub open spec fn condition_of(j: Json) -> Option<ConditionView> {
    if condition_conforms(j) {
        Some(condition_value(j))
    } else {
        None
    }
}

/// The `Condition` under a key.
pub open spec fn condition_at(j: Json, key: Seq<char>) -> Option<ConditionView> {
    match json_member(j, key) {
        Some(m) => condition_of(m),
        None => None,
    }
}

/// The keys of the members that a `Location` must have.
pub open spec fn location_keys() -> Set<Seq<char>> {
    set![
        "name"@,
        "region"@,
        "country"@,
        "lat"@,
        "lon"@,
        "tz_id"@,
        "localtime_epoch"@,
        "localtime"@,
    ]
}

/// Whether a document is an object with every member of a `Location`, each of
/// its kind, and no other member.
pub open spec fn location_conforms(j: Json) -> bool {
    &&& json_keys(j) == Some(location_keys())
    &&& text_at(j, "name"@) is Some
    &&& text_at(j, "region"@) is Some
    &&& text_at(j, "country"@) is Some
    &&& quantity_at(j, "lat"@) is Some
    &&& quantity_at(j, "lon"@) is Some
    &&& text_at(j, "tz_id"@) is Some
    &&& i64_at(j, "localtime_epoch"@) is Some
    &&& text_at(j, "localtime"@) is Some
}

/// The `Location` that a document of its shape holds.
pub open spec fn location_value(j: Json) -> LocationView {
    LocationView {
        name: text_at(j, "name"@)->0,
        region: text_at(j, "region"@)->0,
        country: text_at(j, "country"@)->0,
        lat: quantity_at(j, "lat"@)->0,
        lon: quantity_at(j, "lon"@)->0,
        tz_id: text_at(j, "tz_id"@)->0,
        localtime_epoch: i64_at(j, "localtime_epoch"@)->0,
        localtime: text_at(j, "localtime"@)->0,
    }
}

/// The `Location` that a document decodes to; `None` where it does not have the
/// shape of one.
pub open spec fn location_of(j: Json) -> Option<LocationView> {
    if location_conforms(j) {
        Some(location_value(j))
    } else {
        None
    }
}

/// The `Location` under a key.
pub open spec fn location_at(j: Json, key: Seq<char>) -> Option<LocationView> {
    match json_member(j, key) {
        Some(m) => location_of(m),
        None => None,
    }
}

/// The keys of the members that a `Current` must have.
pub open spec fn current_keys() -> Set<Seq<char>> {
    set![
        "last_updated_epoch"@,
        "last_updated"@,
        "temp_c"@,
        "temp_f"@,
        "is_day"@,
        "condition"@,
        "wind_mph"@,
        "wind_kph"@,
        "wind_degree"@,
        "wind_dir"@,
        "pressure_mb"@,
        "pressure_in"@,
        "precip_mm"@,
        "precip_in"@,
        "humidity"@,
        "cloud"@,
        "feelslike_c"@,
        "feelslike_f"@,
        "windchill_c"@,
        "windchill_f"@,
        "heatindex_c"@,
        "heatindex_f"@,
        "dewpoint_c"@,
        "dewpoint_f"@,
        "vis_km"@,
        "vis_miles"@,
        "uv"@,
        "gust_mph"@,
        "gust_kph"@,
        "air_quality"@,
        "short_rad"@,
        "diff_rad"@,
        "dni"@,
        "gti"@,
    ]
}

/// Whether a document is an object with every member of a `Current`, each of
/// its kind, and no other member.
pub open spec fn current_conforms(j: Json) -> bool {
    &&& json_keys(j) == Some(current_keys())
    &&& i64_at(j, "last_updated_epoch"@) is Some
    &&& text_at(j, "last_updated"@) is Some
    &&& quantity_at(j, "temp_c"@) is Some
    &&& quantity_at(j, "temp_f"@) is Some
    &&& i32_at(j, "is_day"@) is Some
    &&& condition_at(j, "condition"@) is Some
    &&& quantity_at(j, "wind_mph"@) is Some
    &&& quantity_at(j, "wind_kph"@) is Some
    &&& i32_at(j, "wind_degree"@) is Some
    &&& text_at(j, "wind_dir"@) is Some
    &&& quantity_at(j, "pressure_mb"@) is Some
    &&& quantity_at(j, "pressure_in"@) is Some
    &&& quantity_at(j, "precip_mm"@) is Some
    &&& quantity_at(j, "precip_in"@) is Some
    &&& i32_at(j, "humidity"@) is Some
    &&& i32_at(j, "cloud"@) is Some
    &&& quantity_at(j, "feelslike_c"@) is Some
    &&& quantity_at(j, "feelslike_f"@) is Some
    &&& quantity_at(j, "windchill_c"@) is Some
    &&& quantity_at(j, "windchill_f"@) is Some
    &&& quantity_at(j, "heatindex_c"@) is Some
    &&& quantity_at(j, "heatindex_f"@) is Some
    &&& quantity_at(j, "dewpoint_c"@) is Some
    &&& quantity_at(j, "dewpoint_f"@) is Some
    &&& quantity_at(j, "vis_km"@) is Some
    &&& quantity_at(j, "vis_miles"@) is Some
    &&& quantity_at(j, "uv"@) is Some
    &&& quantity_at(j, "gust_mph"@) is Some
    &&& quantity_at(j, "gust_kph"@) is Some
    &&& air_quality_at(j, "air_quality"@) is Some
    &&& quantity_at(j, "short_rad"@) is Some
    &&& quantity_at(j, "diff_rad"@) is Some
    &&& quantity_at(j, "dni"@) is Some
    &&& quantity_at(j, "gti"@) is Some
}

/// The `Current` that a document of its shape holds.
pub open spec fn current_value(j: Json) -> CurrentView {
    CurrentView {
        last_updated_epoch: i64_at(j, "last_updated_epoch"@)->0,
        last_updated: text_at(j, "last_updated"@)->0,
        temp_c: quantity_at(j, "temp_c"@)->0,
        temp_f: quantity_at(j, "temp_f"@)->0,
        is_day: i32_at(j, "is_day"@)->0,
        condition: condition_at(j, "condition"@)->0,
        wind_mph: quantity_at(j, "wind_mph"@)->0,
        wind_kph: quantity_at(j, "wind_kph"@)->0,
        wind_degree: i32_at(j, "wind_degree"@)->0,
        wind_dir: text_at(j, "wind_dir"@)->0,
        pressure_mb: quantity_at(j, "pressure_mb"@)->0,
        pressure_in: quantity_at(j, "pressure_in"@)->0,
        precip_mm: quantity_at(j, "precip_mm"@)->0,
        precip_in: quantity_at(j, "precip_in"@)->0,
        humidity: i32_at(j, "humidity"@)->0,
        cloud: i32_at(j, "cloud"@)->0,
        feelslike_c: quantity_at(j, "feelslike_c"@)->0,
        feelslike_f: quantity_at(j, "feelslike_f"@)->0,
        windchill_c: quantity_at(j, "windchill_c"@)->0,
        windchill_f: quantity_at(j, "windchill_f"@)->0,
        heatindex_c: quantity_at(j, "heatindex_c"@)->0,
        heatindex_f: quantity_at(j, "heatindex_f"@)->0,
        dewpoint_c: quantity_at(j, "dewpoint_c"@)->0,
        dewpoint_f: quantity_at(j, "dewpoint_f"@)->0,
        vis_km: quantity_at(j, "vis_km"@)->0,
        vis_miles: quantity_at(j, "vis_miles"@)->0,
        uv: quantity_at(j, "uv"@)->0,
        gust_mph: quantity_at(j, "gust_mph"@)->0,
        gust_kph: quantity_at(j, "gust_kph"@)->0,
        air_quality: air_quality_at(j, "air_quality"@)->0,
        short_rad: quantity_at(j, "short_rad"@)->0,
        diff_rad: quantity_at(j, "diff_rad"@)->0,
        dni: quantity_at(j, "dni"@)->0,
        gti: quantity_at(j, "gti"@)->0,
    }
}

/// The `Current` that a document decodes to; `None` where it does not have the
/// shape of one.
pub open spec fn current_of(j: Json) -> Option<CurrentView> {
    if current_conforms(j) {
        Some(current_value(j))
    } else {
        None
    }
}

/// The `Current` under a key.
pub open spec fn current_at(j: Json, key: Seq<char>) -> Option<CurrentView> {
    match json_member(j, key) {
        Some(m) => current_of(m),
        None => None,
    }
}

/// The keys of the members that a `Day` must have.
pub open spec fn day_keys() -> Set<Seq<char>> {
    set![
        "maxtemp_c"@,
        "maxtemp_f"@,
        "mintemp_c"@,
        "mintemp_f"@,
        "avgtemp_c"@,
        "avgtemp_f"@,
        "maxwind_mph"@,
        "maxwind_kph"@,
        "totalprecip_mm"@,
        "totalprecip_in"@,
        "totalsnow_cm"@,
        "avgvis_km"@,
        "avgvis_miles"@,
        "avghumidity"@,
        "daily_will_it_rain"@,
        "daily_chance_of_rain"@,
        "daily_will_it_snow"@,
        "daily_chance_of_snow"@,
        "condition"@,
        "uv"@,
        "air_quality"@,
    ]
}

/// Whether a document is an object with every member of a `Day`, each of
/// its kind, and no other member.
pub open spec fn day_conforms(j: Json) -> bool {
    &&& json_keys(j) == Some(day_keys())
    &&& quantity_at(j, "maxtemp_c"@) is Some
    &&& quantity_at(j, "maxtemp_f"@) is Some
    &&& quantity_at(j, "mintemp_c"@) is Some
    &&& quantity_at(j, "mintemp_f"@) is Some
    &&& quantity_at(j, "avgtemp_c"@) is Some
    &&& quantity_at(j, "avgtemp_f"@) is Some
    &&& quantity_at(j, "maxwind_mph"@) is Some
    &&& quantity_at(j, "maxwind_kph"@) is Some
    &&& quantity_at(j, "totalprecip_mm"@) is Some
    &&& quantity_at(j, "totalprecip_in"@) is Some
    &&& quantity_at(j, "totalsnow_cm"@) is Some
    &&& quantity_at(j, "avgvis_km"@) is Some
    &&& quantity_at(j, "avgvis_miles"@) is Some
    &&& u32_at(j, "avghumidity"@) is Some
    &&& i32_at(j, "daily_will_it_rain"@) is Some
    &&& i32_at(j, "daily_chance_of_rain"@) is Some
    &&& i32_at(j, "daily_will_it_snow"@) is Some
    &&& i32_at(j, "daily_chance_of_snow"@) is Some
    &&& condition_at(j, "condition"@) is Some
    &&& quantity_at(j, "uv"@) is Some
    &&& air_quality_at(j, "air_quality"@) is Some
}

/// The `Day` that a document of its shape holds.
pub open spec fn day_value(j: Json) -> DayView {
    DayView {
        maxtemp_c: quantity_at(j, "maxtemp_c"@)->0,
        maxtemp_f: quantity_at(j, "maxtemp_f"@)->0,
        mintemp_c: quantity_at(j, "mintemp_c"@)->0,
        mintemp_f: quantity_at(j, "mintemp_f"@)->0,
        avgtemp_c: quantity_at(j, "avgtemp_c"@)->0,
        avgtemp_f: quantity_at(j, "avgtemp_f"@)->0,
        maxwind_mph: quantity_at(j, "maxwind_mph"@)->0,
        maxwind_kph: quantity_at(j, "maxwind_kph"@)->0,
        totalprecip_mm: quantity_at(j, "totalprecip_mm"@)->0,
        totalprecip_in: quantity_at(j, "totalprecip_in"@)->0,
        totalsnow_cm: quantity_at(j, "totalsnow_cm"@)->0,
        avgvis_km: quantity_at(j, "avgvis_km"@)->0,
        avgvis_miles: quantity_at(j, "avgvis_miles"@)->0,
        avghumidity: u32_at(j, "avghumidity"@)->0,
        daily_will_it_rain: i32_at(j, "daily_will_it_rain"@)->0,
        daily_chance_of_rain: i32_at(j, "daily_chance_of_rain"@)->0,
        daily_will_it_snow: i32_at(j, "daily_will_it_snow"@)->0,
        daily_chance_of_snow: i32_at(j, "daily_chance_of_snow"@)->0,
        condition: condition_at(j, "condition"@)->0,
        uv: quantity_at(j, "uv"@)->0,
        air_quality: air_quality_at(j, "air_quality"@)->0,
    }
}

/// The `Day` that a document decodes to; `None` where it does not have the
/// shape of one.
pub open spec fn day_of(j: Json) -> Option<DayView> {
    if day_conforms(j) {
        Some(day_value(j))
    } else {
        None
    }
}

/// The `Day` under a key.
pub open spec fn day_at(j: Json, key: Seq<char>) -> Option<DayView> {
    match json_member(j, key) {
        Some(m) => day_of(m),
        None => None,
    }
}

/// The keys of the members that an `Astro` must have.
pub open spec fn astro_keys() -> Set<Seq<char>> {
    set![
        "sunrise"@,
        "sunset"@,
        "moonrise"@,
        "moonset"@,
        "moon_phase"@,
        "moon_illumination"@,
        "is_moon_up"@,
        "is_sun_up"@,
    ]
}

/// Whether a document is an object with every member of an `Astro`, each of
/// its kind, and no other member.
pub open spec fn astro_conforms(j: Json) -> bool {
    &&& json_keys(j) == Some(astro_keys())
    &&& text_at(j, "sunrise"@) is Some
    &&& text_at(j, "sunset"@) is Some
    &&& text_at(j, "moonrise"@) is Some
    &&& text_at(j, "moonset"@) is Some
    &&& text_at(j, "moon_phase"@) is Some
    &&& u32_at(j, "moon_illumination"@) is Some
    &&& i32_at(j, "is_moon_up"@) is Some
    &&& i32_at(j, "is_sun_up"@) is Some
}

/// The `Astro` that a document of its shape holds.
pub open spec fn astro_value(j: Json) -> AstroView {
    AstroView {
        sunrise: text_at(j, "sunrise"@)->0,
        sunset: text_at(j, "sunset"@)->0,
        moonrise: text_at(j, "moonrise"@)->0,
        moonset: text_at(j, "moonset"@)->0,
        moon_phase: text_at(j, "moon_phase"@)->0,
        moon_illumination: u32_at(j, "moon_illumination"@)->0,
        is_moon_up: i32_at(j, "is_moon_up"@)->0,
        is_sun_up: i32_at(j, "is_sun_up"@)->0,
    }
}

/// The `Astro` that a document decodes to; `None` where it does not have the
/// shape of one.
pub open spec fn astro_of(j: Json) -> Option<AstroView> {
    if astro_conforms(j) {
        Some(astro_value(j))
    } else {
        None
    }
}

/// The `Astro` under a key.
pub open spec fn astro_at(j: Json, key: Seq<char>) -> Option<AstroView> {
    match json_member(j, key) {
        Some(m) => astro_of(m),
        None => None,
    }
}

/// The keys of the members that a `Hour` must have.
pub open spec fn hour_keys() -> Set<Seq<char>> {
    set![
        "time_epoch"@,
        "time"@,
        "temp_c"@,
        "temp_f"@,
        "is_day"@,
        "condition"@,
        "wind_mph"@,
        "wind_kph"@,
        "wind_degree"@,
        "wind_dir"@,
        "pressure_mb"@,
        "pressure_in"@,
        "precip_mm"@,
        "precip_in"@,
        "snow_cm"@,
        "humidity"@,
        "cloud"@,
        "feelslike_c"@,
        "feelslike_f"@,
        "windchill_c"@,
        "windchill_f"@,
        "heatindex_c"@,
        "heatindex_f"@,
        "dewpoint_c"@,
        "dewpoint_f"@,
        "will_it_rain"@,
        "chance_of_rain"@,
        "will_it_snow"@,
        "chance_of_snow"@,
        "vis_km"@,
        "vis_miles"@,
        "gust_kph"@,
        "gust_mph"@,
        "uv"@,
        "air_quality"@,
        "short_rad"@,
        "diff_rad"@,
        "dni"@,
        "gti"@,
    ]
}

/// Whether a document is an object with every member of a `Hour`, each of
/// its kind, and no other member.
pub open spec fn hour_conforms(j: Json) -> bool {
    &&& json_keys(j) == Some(hour_keys())
    &&& i64_at(j, "time_epoch"@) is Some
    &&& text_at(j, "time"@) is Some
    &&& quantity_at(j, "temp_c"@) is Some
    &&& quantity_at(j, "temp_f"@) is Some
    &&& i32_at(j, "is_day"@) is Some
    &&& condition_at(j, "condition"@) is Some
    &&& quantity_at(j, "wind_mph"@) is Some
    &&& quantity_at(j, "wind_kph"@) is Some
    &&& i32_at(j, "wind_degree"@) is Some
    &&& text_at(j, "wind_dir"@) is Some
    &&& quantity_at(j, "pressure_mb"@) is Some
    &&& quantity_at(j, "pressure_in"@) is Some
    &&& quantity_at(j, "precip_mm"@) is Some
    &&& quantity_at(j, "precip_in"@) is Some
    &&& quantity_at(j, "snow_cm"@) is Some
    &&& i32_at(j, "humidity"@) is Some
    &&& i32_at(j, "cloud"@) is Some
    &&& quantity_at(j, "feelslike_c"@) is Some
    &&& quantity_at(j, "feelslike_f"@) is Some
    &&& quantity_at(j, "windchill_c"@) is Some
    &&& quantity_at(j, "windchill_f"@) is Some
    &&& quantity_at(j, "heatindex_c"@) is Some
    &&& quantity_at(j, "heatindex_f"@) is Some
    &&& quantity_at(j, "dewpoint_c"@) is Some
    &&& quantity_at(j, "dewpoint_f"@) is Some
    &&& i32_at(j, "will_it_rain"@) is Some
    &&& i32_at(j, "chance_of_rain"@) is Some
    &&& i32_at(j, "will_it_snow"@) is Some
    &&& i32_at(j, "chance_of_snow"@) is Some
    &&& quantity_at(j, "vis_km"@) is Some
    &&& quantity_at(j, "vis_miles"@) is Some
    &&& quantity_at(j, "gust_kph"@) is Some
    &&& quantity_at(j, "gust_mph"@) is Some
    &&& quantity_at(j, "uv"@) is Some
    &&& air_quality_at(j, "air_quality"@) is Some
    &&& quantity_at(j, "short_rad"@) is Some
    &&& quantity_at(j, "diff_rad"@) is Some
    &&& quantity_at(j, "dni"@) is Some
    &&& quantity_at(j, "gti"@) is Some
}

/// The `Hour` that a document of its shape holds.
pub open spec fn hour_value(j: Json) -> HourView {
    HourView {
        time_epoch: i64_at(j, "time_epoch"@)->0,
        time: text_at(j, "time"@)->0,
        temp_c: quantity_at(j, "temp_c"@)->0,
        temp_f: quantity_at(j, "temp_f"@)->0,
        is_day: i32_at(j, "is_day"@)->0,
        condition: condition_at(j, "condition"@)->0,
        wind_mph: quantity_at(j, "wind_mph"@)->0,
        wind_kph: quantity_at(j, "wind_kph"@)->0,
        wind_degree: i32_at(j, "wind_degree"@)->0,
        wind_dir: text_at(j, "wind_dir"@)->0,
        pressure_mb: quantity_at(j, "pressure_mb"@)->0,
        pressure_in: quantity_at(j, "pressure_in"@)->0,
        precip_mm: quantity_at(j, "precip_mm"@)->0,
        precip_in: quantity_at(j, "precip_in"@)->0,
        snow_cm: quantity_at(j, "snow_cm"@)->0,
        humidity: i32_at(j, "humidity"@)->0,
        cloud: i32_at(j, "cloud"@)->0,
        feelslike_c: quantity_at(j, "feelslike_c"@)->0,
        feelslike_f: quantity_at(j, "feelslike_f"@)->0,
        windchill_c: quantity_at(j, "windchill_c"@)->0,
        windchill_f: quantity_at(j, "windchill_f"@)->0,
        heatindex_c: quantity_at(j, "heatindex_c"@)->0,
        heatindex_f: quantity_at(j, "heatindex_f"@)->0,
        dewpoint_c: quantity_at(j, "dewpoint_c"@)->0,
        dewpoint_f: quantity_at(j, "dewpoint_f"@)->0,
        will_it_rain: i32_at(j, "will_it_rain"@)->0,
        chance_of_rain: i32_at(j, "chance_of_rain"@)->0,
        will_it_snow: i32_at(j, "will_it_snow"@)->0,
        chance_of_snow: i32_at(j, "chance_of_snow"@)->0,
        vis_km: quantity_at(j, "vis_km"@)->0,
        vis_miles: quantity_at(j, "vis_miles"@)->0,
        gust_kph: quantity_at(j, "gust_kph"@)->0,
        gust_mph: quantity_at(j, "gust_mph"@)->0,
        uv: quantity_at(j, "uv"@)->0,
        air_quality: air_quality_at(j, "air_quality"@)->0,
        short_rad: quantity_at(j, "short_rad"@)->0,
        diff_rad: quantity_at(j, "diff_rad"@)->0,
        dni: quantity_at(j, "dni"@)->0,
        gti: quantity_at(j, "gti"@)->0,
    }
}

/// The `Hour` that a document decodes to; `None` where it does not have the
/// shape of one.
pub open spec fn hour_of(j: Json) -> Option<HourView> {
    if hour_conforms(j) {
        Some(hour_value(j))
    } else {
        None
    }
}

/// The `Hour` under a key.
pub open spec fn hour_at(j: Json, key: Seq<char>) -> Option<HourView> {
    match json_member(j, key) {
        Some(m) => hour_of(m),
        None => None,
    }
}

/// The `Hour` entries that the elements of an array decode to, in the order of
/// the array; `None` where any element does not decode.
pub open spec fn hours_of(items: Seq<Json>) -> Option<Seq<HourView>> {
    if forall|i: int| 0 <= i < items.len() ==> (#[trigger] hour_of(items[i])) is Some {
        Some(Seq::new(items.len(), |i: int| hour_of(items[i])->0))
    } else {
        None
    }
}

/// The `Hour` entries of the array under a key.
pub open spec fn hours_at(j: Json, key: Seq<char>) -> Option<Seq<HourView>> {
    match json_member(j, key) {
        Some(m) => match json_items(m) {
            Some(items) => hours_of(items),
            None => None,
        },
        None => None,
    }
}

/// The keys of the members that a `ForecastDay` must have.
pub open spec fn forecast_day_keys() -> Set<Seq<char>> {
    set![
        "date"@,
        "date_epoch"@,
        "day"@,
        "astro"@,
        "hour"@,
    ]
}

/// Whether a document is an object with every member of a `ForecastDay`, each of
/// its kind, and no other member.
pub open spec fn forecast_day_conforms(j: Json) -> bool {
    &&& json_keys(j) == Some(forecast_day_keys())
    &&& text_at(j, "date"@) is Some
    &&& i64_at(j, "date_epoch"@) is Some
    &&& day_at(j, "day"@) is Some
    &&& astro_at(j, "astro"@) is Some
    &&& hours_at(j, "hour"@) is Some
}

/// The `ForecastDay` that a document of its shape holds.
pub open spec fn forecast_day_value(j: Json) -> ForecastDayView {
    ForecastDayView {
        date: text_at(j, "date"@)->0,
        date_epoch: i64_at(j, "date_epoch"@)->0,
        day: day_at(j, "day"@)->0,
        astro: astro_at(j, "astro"@)->0,
        hour: hours_at(j, "hour"@)->0,
    }
}

/// The `ForecastDay` that a document decodes to; `None` where it does not have the
/// shape of one.
pub open spec fn forecast_day_of(j: Json) -> Option<ForecastDayView> {
    if forecast_day_conforms(j) {
        Some(forecast_day_value(j))
    } else {
        None
    }
}

/// The `ForecastDay` under a key.
pub open spec fn forecast_day_at(j: Json, key: Seq<char>) -> Option<ForecastDayView> {
    match json_member(j, key) {
        Some(m) => forecast_day_of(m),
        None => None,
    }
}

/// The `ForecastDay` entries that the elements of an array decode to, in the order of
/// the array; `None` where any element does not decode.
pub open spec fn forecast_days_of(items: Seq<Json>) -> Option<Seq<ForecastDayView>> {
    if forall|i: int| 0 <= i < items.len() ==> (#[trigger] forecast_day_of(items[i])) is Some {
        Some(Seq::new(items.len(), |i: int| forecast_day_of(items[i])->0))
    } else {
        None
    }
}

/// The `ForecastDay` entries of the array under a key.
pub open spec fn forecast_days_at(j: Json, key: Seq<char>) -> Option<Seq<ForecastDayView>> {
    match json_member(j, key) {
        Some(m) => match json_items(m) {
            Some(items) => forecast_days_of(items),
            None => None,
        },
        None => None,
    }
}

/// The keys of the members that a `Forecast` must have.
pub open spec fn forecast_keys() -> Set<Seq<char>> {
    set![
        "forecastday"@,
    ]
}

/// Whether a document is an object with every member of a `Forecast`, each of
/// its kind, and no other member.
pub open spec fn forecast_conforms(j: Json) -> bool {
    &&& json_keys(j) == Some(forecast_keys())
    &&& forecast_days_at(j, "forecastday"@) is Some
}

/// The `Forecast` that a document of its shape holds.
pub open spec fn forecast_value(j: Json) -> ForecastView {
    ForecastView {
        forecastday: forecast_days_at(j, "forecastday"@)->0,
    }
}

/// The `Forecast` that a document decodes to; `None` where it does not have the
/// shape of one.
pub open spec fn forecast_of(j: Json) -> Option<ForecastView> {
    if forecast_conforms(j) {
        Some(forecast_value(j))
    } else {
        None
    }
}

/// The `Forecast` under a key.
pub open spec fn forecast_at(j: Json, key: Seq<char>) -> Option<ForecastView> {
    match json_member(j, key) {
        Some(m) => forecast_of(m),
        None => None,
    }
}

/// The keys of the members that a `WeatherData` must have.
pub open spec fn weather_keys() -> Set<Seq<char>> {
    set![
        "location"@,
        "current"@,
        "forecast"@,
    ]
}

/// Whether a document is an object with every member of a `WeatherData`, each of
/// its kind, and no other member.
pub open spec fn weather_conforms(j: Json) -> bool {
    &&& json_keys(j) == Some(weather_keys())
    &&& location_at(j, "location"@) is Some
    &&& current_at(j, "current"@) is Some
    &&& forecast_at(j, "forecast"@) is Some
}

/// The `WeatherData` that a document of its shape holds.
pub open spec fn weather_value(j: Json) -> WeatherDataView {
    WeatherDataView {
        location: location_at(j, "location"@)->0,
        current: current_at(j, "current"@)->0,
        forecast: forecast_at(j, "forecast"@)->0,
    }
}

/// The `WeatherData` that a document decodes to; `None` where it does not have the
/// shape of one.
pub open spec fn weather_of(j: Json) -> Option<WeatherDataView> {
    if weather_conforms(j) {
        Some(weather_value(j))
    } else {
        None
    }
}

/// Enough of the spelling of the keys of an `AirQuality` to tell any two of them
/// apart.
pub(crate) proof fn lemma_air_quality_keys_differ()
    ensures
        "co"@.len() == 2 && "co"@[0] == 'c',
        "no2"@.len() == 3 && "no2"@[0] == 'n',
        "o3"@.len() == 2 && "o3"@[0] == 'o',
        "so2"@.len() == 3 && "so2"@[0] == 's',
        "pm2_5"@.len() == 5,
        "pm10"@.len() == 4,
        "us-epa-index"@.len() == 12,
        "gb-defra-index"@.len() == 14,
{
    reveal_strlit("co");
    reveal_strlit("no2");
    reveal_strlit("o3");
    reveal_strlit("so2");
    reveal_strlit("pm2_5");
    reveal_strlit("pm10");
    reveal_strlit("us-epa-index");
    reveal_strlit("gb-defra-index");
}

/// The keys of an `AirQuality` are 8.
pub proof fn lemma_air_quality_keys_count()
    ensures
        air_quality_keys().finite(),
        air_quality_keys().len() == 8,
{
    lemma_air_quality_keys_differ();
}

/// Enough of the spelling of the keys of a `Condition` to tell any two of them
/// apart.
pub(crate) proof fn lemma_condition_keys_differ()
    ensures
        "text"@.len() == 4 && "text"@[0] == 't',
        "icon"@.len() == 4 && "icon"@[0] == 'i',
        "code"@.len() == 4 && "code"@[0] == 'c',
{
    reveal_strlit("text");
    reveal_strlit("icon");
    reveal_strlit("code");
}

/// The keys of a `Condition` are 3.
pub proof fn lemma_condition_keys_count()
    ensures
        condition_keys().finite(),
        condition_keys().len() == 3,
{
    lemma_condition_keys_differ();
}

/// Enough of the spelling of the keys of a `Location` to tell any two of them
/// apart.
pub(crate) proof fn lemma_location_keys_differ()
    ensures
        "name"@.len() == 4,
        "region"@.len() == 6,
        "country"@.len() == 7,
        "lat"@.len() == 3 && "lat"@[1] == 'a',
        "lon"@.len() == 3 && "lon"@[1] == 'o',
        "tz_id"@.len() == 5,
        "localtime_epoch"@.len() == 15,
        "localtime"@.len() == 9,
{
    reveal_strlit("name");
    reveal_strlit("region");
    reveal_strlit("country");
    reveal_strlit("lat");
    reveal_strlit("lon");
    reveal_strlit("tz_id");
    reveal_strlit("localtime_epoch");
    reveal_strlit("localtime");
}

/// The keys of a `Location` are 8.
pub proof fn lemma_location_keys_count()
    ensures
        location_keys().finite(),
        location_keys().len() == 8,
{
    lemma_location_keys_differ();
}

/// Enough of the spelling of the keys of a `Current` to tell any two of them
/// apart.
pub(crate) proof fn lemma_current_keys_differ()
    ensures
        "last_updated_epoch"@.len() == 18,
        "last_updated"@.len() == 12,
        "temp_c"@.len() == 6 && "temp_c"@[0] == 't' && "temp_c"@[5] == 'c',
        "temp_f"@.len() == 6 && "temp_f"@[0] == 't' && "temp_f"@[5] == 'f',
        "is_day"@.len() == 6 && "is_day"@[0] == 'i',
        "condition"@.len() == 9 && "condition"@[0] == 'c',
        "wind_mph"@.len() == 8 && "wind_mph"@[0] == 'w' && "wind_mph"@[5] == 'm',
        "wind_kph"@.len() == 8 && "wind_kph"@[0] == 'w' && "wind_kph"@[5] == 'k',
        "wind_degree"@.len() == 11 && "wind_degree"@[0] == 'w' && "wind_degree"@[4] == '_',
        "wind_dir"@.len() == 8 && "wind_dir"@[0] == 'w' && "wind_dir"@[5] == 'd',
        "pressure_mb"@.len() == 11 && "pressure_mb"@[0] == 'p' && "pressure_mb"@[9] == 'm',
        "pressure_in"@.len() == 11 && "pressure_in"@[0] == 'p' && "pressure_in"@[9] == 'i',
        "precip_mm"@.len() == 9 && "precip_mm"@[0] == 'p' && "precip_mm"@[7] == 'm',
        "precip_in"@.len() == 9 && "precip_in"@[0] == 'p' && "precip_in"@[7] == 'i',
        "humidity"@.len() == 8 && "humidity"@[0] == 'h',
        "cloud"@.len() == 5,
        "feelslike_c"@.len() == 11 && "feelslike_c"@[0] == 'f' && "feelslike_c"@[10] == 'c',
        "feelslike_f"@.len() == 11 && "feelslike_f"@[0] == 'f' && "feelslike_f"@[10] == 'f',
        "windchill_c"@.len() == 11
            && "windchill_c"@[0] == 'w'
            && "windchill_c"@[4] == 'c'
            && "windchill_c"@[10] == 'c',
        "windchill_f"@.len() == 11
            && "windchill_f"@[0] == 'w'
            && "windchill_f"@[4] == 'c'
            && "windchill_f"@[10] == 'f',
        "heatindex_c"@.len() == 11 && "heatindex_c"@[0] == 'h' && "heatindex_c"@[10] == 'c',
        "heatindex_f"@.len() == 11 && "heatindex_f"@[0] == 'h' && "heatindex_f"@[10] == 'f',
        "dewpoint_c"@.len() == 10 && "dewpoint_c"@[9] == 'c',
        "dewpoint_f"@.len() == 10 && "dewpoint_f"@[9] == 'f',
        "vis_km"@.len() == 6 && "vis_km"@[0] == 'v',
        "vis_miles"@.len() == 9 && "vis_miles"@[0] == 'v',
        "uv"@.len() == 2,
        "gust_mph"@.len() == 8 && "gust_mph"@[0] == 'g' && "gust_mph"@[5] == 'm',
        "gust_kph"@.len() == 8 && "gust_kph"@[0] == 'g' && "gust_kph"@[5] == 'k',
        "air_quality"@.len() == 11 && "air_quality"@[0] == 'a',
        "short_rad"@.len() == 9 && "short_rad"@[0] == 's',
        "diff_rad"@.len() == 8 && "diff_rad"@[0] == 'd',
        "dni"@.len() == 3 && "dni"@[0] == 'd',
        "gti"@.len() == 3 && "gti"@[0] == 'g',
{
    reveal_strlit("last_updated_epoch");
    reveal_strlit("last_updated");
    reveal_strlit("temp_c");
    reveal_strlit("temp_f");
    reveal_strlit("is_day");
    reveal_strlit("condition");
    reveal_strlit("wind_mph");
    reveal_strlit("wind_kph");
    reveal_strlit("wind_degree");
    reveal_strlit("wind_dir");
    reveal_strlit("pressure_mb");
    reveal_strlit("pressure_in");
    reveal_strlit("precip_mm");
    reveal_strlit("precip_in");
    reveal_strlit("humidity");
    reveal_strlit("cloud");
    reveal_strlit("feelslike_c");
    reveal_strlit("feelslike_f");
    reveal_strlit("windchill_c");
    reveal_strlit("windchill_f");
    reveal_strlit("heatindex_c");
    reveal_strlit("heatindex_f");
    reveal_strlit("dewpoint_c");
    reveal_strlit("dewpoint_f");
    reveal_strlit("vis_km");
    reveal_strlit("vis_miles");
    reveal_strlit("uv");
    reveal_strlit("gust_mph");
    reveal_strlit("gust_kph");
    reveal_strlit("air_quality");
    reveal_strlit("short_rad");
    reveal_strlit("diff_rad");
    reveal_strlit("dni");
    reveal_strlit("gti");
}

/// The keys of a `Current` are 34.
pub proof fn lemma_current_keys_count()
    ensures
        current_keys().finite(),
        current_keys().len() == 34,
{
    lemma_current_keys_differ();
}

/// Enough of the spelling of the keys of a `Day` to tell any two of them
/// apart.
pub(crate) proof fn lemma_day_keys_differ()
    ensures
        "maxtemp_c"@.len() == 9
            && "maxtemp_c"@[0] == 'm'
            && "maxtemp_c"@[1] == 'a'
            && "maxtemp_c"@[8] == 'c',
        "maxtemp_f"@.len() == 9
            && "maxtemp_f"@[0] == 'm'
            && "maxtemp_f"@[1] == 'a'
            && "maxtemp_f"@[8] == 'f',
        "mintemp_c"@.len() == 9
            && "mintemp_c"@[0] == 'm'
            && "mintemp_c"@[1] == 'i'
            && "mintemp_c"@[8] == 'c',
        "mintemp_f"@.len() == 9
            && "mintemp_f"@[0] == 'm'
            && "mintemp_f"@[1] == 'i'
            && "mintemp_f"@[8] == 'f',
        "avgtemp_c"@.len() == 9
            && "avgtemp_c"@[0] == 'a'
            && "avgtemp_c"@[3] == 't'
            && "avgtemp_c"@[8] == 'c',
        "avgtemp_f"@.len() == 9
            && "avgtemp_f"@[0] == 'a'
            && "avgtemp_f"@[3] == 't'
            && "avgtemp_f"@[8] == 'f',
        "maxwind_mph"@.len() == 11 && "maxwind_mph"@[0] == 'm' && "maxwind_mph"@[8] == 'm',
        "maxwind_kph"@.len() == 11 && "maxwind_kph"@[0] == 'm' && "maxwind_kph"@[8] == 'k',
        "totalprecip_mm"@.len() == 14 && "totalprecip_mm"@[12] == 'm',
        "totalprecip_in"@.len() == 14 && "totalprecip_in"@[12] == 'i',
        "totalsnow_cm"@.len() == 12 && "totalsnow_cm"@[0] == 't',
        "avgvis_km"@.len() == 9 && "avgvis_km"@[0] == 'a' && "avgvis_km"@[3] == 'v',
        "avgvis_miles"@.len() == 12 && "avgvis_miles"@[0] == 'a',
        "avghumidity"@.len() == 11 && "avghumidity"@[0] == 'a' && "avghumidity"@[1] == 'v',
        "daily_will_it_rain"@.len() == 18 && "daily_will_it_rain"@[14] == 'r',
        "daily_chance_of_rain"@.len() == 20 && "daily_chance_of_rain"@[16] == 'r',
        "daily_will_it_snow"@.len() == 18 && "daily_will_it_snow"@[14] == 's',
        "daily_chance_of_snow"@.len() == 20 && "daily_chance_of_snow"@[16] == 's',
        "condition"@.len() == 9 && "condition"@[0] == 'c',
        "uv"@.len() == 2,
        "air_quality"@.len() == 11 && "air_quality"@[0] == 'a' && "air_quality"@[1] == 'i',
{
    reveal_strlit("maxtemp_c");
    reveal_strlit("maxtemp_f");
    reveal_strlit("mintemp_c");
    reveal_strlit("mintemp_f");
    reveal_strlit("avgtemp_c");
    reveal_strlit("avgtemp_f");
    reveal_strlit("maxwind_mph");
    reveal_strlit("maxwind_kph");
    reveal_strlit("totalprecip_mm");
    reveal_strlit("totalprecip_in");
    reveal_strlit("totalsnow_cm");
    reveal_strlit("avgvis_km");
    reveal_strlit("avgvis_miles");
    reveal_strlit("avghumidity");
    reveal_strlit("daily_will_it_rain");
    reveal_strlit("daily_chance_of_rain");
    reveal_strlit("daily_will_it_snow");
    reveal_strlit("daily_chance_of_snow");
    reveal_strlit("condition");
    reveal_strlit("uv");
    reveal_strlit("air_quality");
}

/// The keys of a `Day` are 21.
pub proof fn lemma_day_keys_count()
    ensures
        day_keys().finite(),
        day_keys().len() == 21,
{
    lemma_day_keys_differ();
}

/// Enough of the spelling of the keys of an `Astro` to tell any two of them
/// apart.
pub(crate) proof fn lemma_astro_keys_differ()
    ensures
        "sunrise"@.len() == 7 && "sunrise"@[0] == 's',
        "sunset"@.len() == 6,
        "moonrise"@.len() == 8,
        "moonset"@.len() == 7 && "moonset"@[0] == 'm',
        "moon_phase"@.len() == 10 && "moon_phase"@[0] == 'm',
        "moon_illumination"@.len() == 17,
        "is_moon_up"@.len() == 10 && "is_moon_up"@[0] == 'i',
        "is_sun_up"@.len() == 9,
{
    reveal_strlit("sunrise");
    reveal_strlit("sunset");
    reveal_strlit("moonrise");
    reveal_strlit("moonset");
    reveal_strlit("moon_phase");
    reveal_strlit("moon_illumination");
    reveal_strlit("is_moon_up");
    reveal_strlit("is_sun_up");
}

/// The keys of an `Astro` are 8.
pub proof fn lemma_astro_keys_count()
    ensures
        astro_keys().finite(),
        astro_keys().len() == 8,
{
    lemma_astro_keys_differ();
}

/// Enough of the spelling of the keys of a `Hour` to tell any two of them
/// apart.
pub(crate) proof fn lemma_hour_keys_differ()
    ensures
        "time_epoch"@.len() == 10 && "time_epoch"@[0] == 't',
        "time"@.len() == 4,
        "temp_c"@.len() == 6 && "temp_c"@[0] == 't' && "temp_c"@[5] == 'c',
        "temp_f"@.len() == 6 && "temp_f"@[0] == 't' && "temp_f"@[5] == 'f',
        "is_day"@.len() == 6 && "is_day"@[0] == 'i',
        "condition"@.len() == 9 && "condition"@[0] == 'c',
        "wind_mph"@.len() == 8 && "wind_mph"@[0] == 'w' && "wind_mph"@[5] == 'm',
        "wind_kph"@.len() == 8 && "wind_kph"@[0] == 'w' && "wind_kph"@[5] == 'k',
        "wind_degree"@.len() == 11 && "wind_degree"@[0] == 'w' && "wind_degree"@[4] == '_',
        "wind_dir"@.len() == 8 && "wind_dir"@[0] == 'w' && "wind_dir"@[5] == 'd',
        "pressure_mb"@.len() == 11 && "pressure_mb"@[0] == 'p' && "pressure_mb"@[9] == 'm',
        "pressure_in"@.len() == 11 && "pressure_in"@[0] == 'p' && "pressure_in"@[9] == 'i',
        "precip_mm"@.len() == 9 && "precip_mm"@[0] == 'p' && "precip_mm"@[7] == 'm',
        "precip_in"@.len() == 9 && "precip_in"@[0] == 'p' && "precip_in"@[7] == 'i',
        "snow_cm"@.len() == 7,
        "humidity"@.len() == 8 && "humidity"@[0] == 'h',
        "cloud"@.len() == 5,
        "feelslike_c"@.len() == 11 && "feelslike_c"@[0] == 'f' && "feelslike_c"@[10] == 'c',
        "feelslike_f"@.len() == 11 && "feelslike_f"@[0] == 'f' && "feelslike_f"@[10] == 'f',
        "windchill_c"@.len() == 11
            && "windchill_c"@[0] == 'w'
            && "windchill_c"@[4] == 'c'
            && "windchill_c"@[10] == 'c',
        "windchill_f"@.len() == 11
            && "windchill_f"@[0] == 'w'
            && "windchill_f"@[4] == 'c'
            && "windchill_f"@[10] == 'f',
        "heatindex_c"@.len() == 11 && "heatindex_c"@[0] == 'h' && "heatindex_c"@[10] == 'c',
        "heatindex_f"@.len() == 11 && "heatindex_f"@[0] == 'h' && "heatindex_f"@[10] == 'f',
        "dewpoint_c"@.len() == 10 && "dewpoint_c"@[0] == 'd' && "dewpoint_c"@[9] == 'c',
        "dewpoint_f"@.len() == 10 && "dewpoint_f"@[0] == 'd' && "dewpoint_f"@[9] == 'f',
        "will_it_rain"@.len() == 12 && "will_it_rain"@[8] == 'r',
        "chance_of_rain"@.len() == 14 && "chance_of_rain"@[10] == 'r',
        "will_it_snow"@.len() == 12 && "will_it_snow"@[8] == 's',
        "chance_of_snow"@.len() == 14 && "chance_of_snow"@[10] == 's',
        "vis_km"@.len() == 6 && "vis_km"@[0] == 'v',
        "vis_miles"@.len() == 9 && "vis_miles"@[0] == 'v',
        "gust_kph"@.len() == 8 && "gust_kph"@[0] == 'g' && "gust_kph"@[5] == 'k',
        "gust_mph"@.len() == 8 && "gust_mph"@[0] == 'g' && "gust_mph"@[5] == 'm',
        "uv"@.len() == 2,
        "air_quality"@.len() == 11 && "air_quality"@[0] == 'a',
        "short_rad"@.len() == 9 && "short_rad"@[0] == 's',
        "diff_rad"@.len() == 8 && "diff_rad"@[0] == 'd',
        "dni"@.len() == 3 && "dni"@[0] == 'd',
        "gti"@.len() == 3 && "gti"@[0] == 'g',
{
    reveal_strlit("time_epoch");
    reveal_strlit("time");
    reveal_strlit("temp_c");
    reveal_strlit("temp_f");
    reveal_strlit("is_day");
    reveal_strlit("condition");
    reveal_strlit("wind_mph");
    reveal_strlit("wind_kph");
    reveal_strlit("wind_degree");
    reveal_strlit("wind_dir");
    reveal_strlit("pressure_mb");
    reveal_strlit("pressure_in");
    reveal_strlit("precip_mm");
    reveal_strlit("precip_in");
    reveal_strlit("snow_cm");
    reveal_strlit("humidity");
    reveal_strlit("cloud");
    reveal_strlit("feelslike_c");
    reveal_strlit("feelslike_f");
    reveal_strlit("windchill_c");
    reveal_strlit("windchill_f");
    reveal_strlit("heatindex_c");
    reveal_strlit("heatindex_f");
    reveal_strlit("dewpoint_c");
    reveal_strlit("dewpoint_f");
    reveal_strlit("will_it_rain");
    reveal_strlit("chance_of_rain");
    reveal_strlit("will_it_snow");
    reveal_strlit("chance_of_snow");
    reveal_strlit("vis_km");
    reveal_strlit("vis_miles");
    reveal_strlit("gust_kph");
    reveal_strlit("gust_mph");
    reveal_strlit("uv");
    reveal_strlit("air_quality");
    reveal_strlit("short_rad");
    reveal_strlit("diff_rad");
    reveal_strlit("dni");
    reveal_strlit("gti");
}

/// The keys of a `Hour` are 39.
pub proof fn lemma_hour_keys_count()
    ensures
        hour_keys().finite(),
        hour_keys().len() == 39,
{
    lemma_hour_keys_differ();
}

/// Enough of the spelling of the keys of a `ForecastDay` to tell any two of them
/// apart.
pub(crate) proof fn lemma_forecast_day_keys_differ()
    ensures
        "date"@.len() == 4 && "date"@[0] == 'd',
        "date_epoch"@.len() == 10,
        "day"@.len() == 3,
        "astro"@.len() == 5,
        "hour"@.len() == 4 && "hour"@[0] == 'h',
{
    reveal_strlit("date");
    reveal_strlit("date_epoch");
    reveal_strlit("day");
    reveal_strlit("astro");
    reveal_strlit("hour");
}

/// The keys of a `ForecastDay` are 5.
pub proof fn lemma_forecast_day_keys_count()
    ensures
        forecast_day_keys().finite(),
        forecast_day_keys().len() == 5,
{
    lemma_forecast_day_keys_differ();
}

/// Enough of the spelling of the keys of a `Forecast` to tell any two of them
/// apart.
pub(crate) proof fn lemma_forecast_keys_differ()
    ensures
        "forecastday"@.len() == 11,
{
    reveal_strlit("forecastday");
}

/// The keys of a `Forecast` are 1.
pub proof fn lemma_forecast_keys_count()
    ensures
        forecast_keys().finite(),
        forecast_keys().len() == 1,
{
    lemma_forecast_keys_differ();
}

/// Enough of the spelling of the keys of a `WeatherData` to tell any two of them
/// apart.
pub(crate) proof fn lemma_weather_keys_differ()
    ensures
        "location"@.len() == 8 && "location"@[0] == 'l',
        "current"@.len() == 7,
        "forecast"@.len() == 8 && "forecast"@[0] == 'f',
{
    reveal_strlit("location");
    reveal_strlit("current");
    reveal_strlit("forecast");
}

/// The keys of a `WeatherData` are 3.
pub proof fn lemma_weather_keys_count()
    ensures
        weather_keys().finite(),
        weather_keys().len() == 3,
{
    lemma_weather_keys_differ();
}

/// Decodes an `AirQuality` from a JSON value: all of it, or nothing.
pub fn decode_air_quality(v: &Value) -> (r: Option<AirQuality>)
    ensures
        match r {
            Some(x) => air_quality_of(json_view(*v)) == Some(x@),
            None => air_quality_of(json_view(*v)) is None,
        },
{
    proof {
        lemma_air_quality_keys_count();
    }
    if !has_member_count(v, 8) {
        return None;
    }
    let co = quantity_field(v, "co")?;
    let no2 = quantity_field(v, "no2")?;
    let o3 = quantity_field(v, "o3")?;
    let so2 = quantity_field(v, "so2")?;
    let pm2_5 = quantity_field(v, "pm2_5")?;
    let pm10 = quantity_field(v, "pm10")?;
    let us_epa_index = i32_field(v, "us-epa-index")?;
    let gb_defra_index = i32_field(v, "gb-defra-index")?;
    proof {
        let keys = json_keys(json_view(*v))->0;
        assert(air_quality_keys().subset_of(keys));
        lemma_subset_equality(air_quality_keys(), keys);
    }
    Some(AirQuality { co, no2, o3, so2, pm2_5, pm10, us_epa_index, gb_defra_index })
}

/// Decodes a `Condition` from a JSON value: all of it, or nothing.
pub fn decode_condition(v: &Value) -> (r: Option<Condition>)
    ensures
        match r {
            Some(x) => condition_of(json_view(*v)) == Some(x@),
            None => condition_of(json_view(*v)) is None,
        },
{
    proof {
        lemma_condition_keys_count();
    }
    if !has_member_count(v, 3) {
        return None;
    }
    let text = text_field(v, "text")?;
    let icon = text_field(v, "icon")?;
    let code = i32_field(v, "code")?;
    proof {
        let keys = json_keys(json_view(*v))->0;
        assert(condition_keys().subset_of(keys));
        lemma_subset_equality(condition_keys(), keys);
    }
    Some(Condition { text, icon, code })
}

/// Decodes a `Location` from a JSON value: all of it, or nothing.
pub fn decode_location(v: &Value) -> (r: Option<Location>)
    ensures
        match r {
            Some(x) => location_of(json_view(*v)) == Some(x@),
            None => location_of(json_view(*v)) is None,
        },
{
    proof {
        lemma_location_keys_count();
    }
    if !has_member_count(v, 8) {
        return None;
    }
    let name = text_field(v, "name")?;
    let region = text_field(v, "region")?;
    let country = text_field(v, "country")?;
    let lat = quantity_field(v, "lat")?;
    let lon = quantity_field(v, "lon")?;
    let tz_id = text_field(v, "tz_id")?;
    let localtime_epoch = i64_field(v, "localtime_epoch")?;
    let localtime = text_field(v, "localtime")?;
    proof {
        let keys = json_keys(json_view(*v))->0;
        assert(location_keys().subset_of(keys));
        lemma_subset_equality(location_keys(), keys);
    }
    Some(Location { name, region, country, lat, lon, tz_id, localtime_epoch, localtime })
}

/// Decodes a `Current` from a JSON value: all of it, or nothing.
pub fn decode_current(v: &Value) -> (r: Option<Current>)
    ensures
        match r {
            Some(x) => current_of(json_view(*v)) == Some(x@),
            None => current_of(json_view(*v)) is None,
        },
{
    proof {
        lemma_current_keys_count();
    }
    if !has_member_count(v, 34) {
        return None;
    }
    let last_updated_epoch = i64_field(v, "last_updated_epoch")?;
    let last_updated = text_field(v, "last_updated")?;
    let temp_c = quantity_field(v, "temp_c")?;
    let temp_f = quantity_field(v, "temp_f")?;
    let is_day = i32_field(v, "is_day")?;
    let condition = decode_condition(member(v, "condition")?)?;
    let wind_mph = quantity_field(v, "wind_mph")?;
    let wind_kph = quantity_field(v, "wind_kph")?;
    let wind_degree = i32_field(v, "wind_degree")?;
    let wind_dir = text_field(v, "wind_dir")?;
    let pressure_mb = quantity_field(v, "pressure_mb")?;
    let pressure_in = quantity_field(v, "pressure_in")?;
    let precip_mm = quantity_field(v, "precip_mm")?;
    let precip_in = quantity_field(v, "precip_in")?;
    let humidity = i32_field(v, "humidity")?;
    let cloud = i32_field(v, "cloud")?;
    let feelslike_c = quantity_field(v, "feelslike_c")?;
    let feelslike_f = quantity_field(v, "feelslike_f")?;
    let windchill_c = quantity_field(v, "windchill_c")?;
    let windchill_f = quantity_field(v, "windchill_f")?;
    let heatindex_c = quantity_field(v, "heatindex_c")?;
    let heatindex_f = quantity_field(v, "heatindex_f")?;
    let dewpoint_c = quantity_field(v, "dewpoint_c")?;
    let dewpoint_f = quantity_field(v, "dewpoint_f")?;
    let vis_km = quantity_field(v, "vis_km")?;
    let vis_miles = quantity_field(v, "vis_miles")?;
    let uv = quantity_field(v, "uv")?;
    let gust_mph = quantity_field(v, "gust_mph")?;
    let gust_kph = quantity_field(v, "gust_kph")?;
    let air_quality = decode_air_quality(member(v, "air_quality")?)?;
    let short_rad = quantity_field(v, "short_rad")?;
    let diff_rad = quantity_field(v, "diff_rad")?;
    let dni = quantity_field(v, "dni")?;
    let gti = quantity_field(v, "gti")?;
    proof {
        let keys = json_keys(json_view(*v))->0;
        assert(current_keys().subset_of(keys));
        lemma_subset_equality(current_keys(), keys);
    }
    Some(
        Current {
            last_updated_epoch,
            last_updated,
            temp_c,
            temp_f,
            is_day,
            condition,
            wind_mph,
            wind_kph,
            wind_degree,
            wind_dir,
            pressure_mb,
            pressure_in,
            precip_mm,
            precip_in,
            humidity,
            cloud,
            feelslike_c,
            feelslike_f,
            windchill_c,
            windchill_f,
            heatindex_c,
            heatindex_f,
            dewpoint_c,
            dewpoint_f,
            vis_km,
            vis_miles,
            uv,
            gust_mph,
            gust_kph,
            air_quality,
            short_rad,
            diff_rad,
            dni,
            gti,
        },
    )
}

/// Decodes a `Day` from a JSON value: all of it, or nothing.
pub fn decode_day(v: &Value) -> (r: Option<Day>)
    ensures
        match r {
            Some(x) => day_of(json_view(*v)) == Some(x@),
            None => day_of(json_view(*v)) is None,
        },
{
    proof {
        lemma_day_keys_count();
    }
    if !has_member_count(v, 21) {
        return None;
    }
    let maxtemp_c = quantity_field(v, "maxtemp_c")?;
    let maxtemp_f = quantity_field(v, "maxtemp_f")?;
    let mintemp_c = quantity_field(v, "mintemp_c")?;
    let mintemp_f = quantity_field(v, "mintemp_f")?;
    let avgtemp_c = quantity_field(v, "avgtemp_c")?;
    let avgtemp_f = quantity_field(v, "avgtemp_f")?;
    let maxwind_mph = quantity_field(v, "maxwind_mph")?;
    let maxwind_kph = quantity_field(v, "maxwind_kph")?;
    let totalprecip_mm = quantity_field(v, "totalprecip_mm")?;
    let totalprecip_in = quantity_field(v, "totalprecip_in")?;
    let totalsnow_cm = quantity_field(v, "totalsnow_cm")?;
    let avgvis_km = quantity_field(v, "avgvis_km")?;
    let avgvis_miles = quantity_field(v, "avgvis_miles")?;
    let avghumidity = u32_field(v, "avghumidity")?;
    let daily_will_it_rain = i32_field(v, "daily_will_it_rain")?;
    let daily_chance_of_rain = i32_field(v, "daily_chance_of_rain")?;
    let daily_will_it_snow = i32_field(v, "daily_will_it_snow")?;
    let daily_chance_of_snow = i32_field(v, "daily_chance_of_snow")?;
    let condition = decode_condition(member(v, "condition")?)?;
    let uv = quantity_field(v, "uv")?;
    let air_quality = decode_air_quality(member(v, "air_quality")?)?;
    proof {
        let keys = json_keys(json_view(*v))->0;
        assert(day_keys().subset_of(keys));
        lemma_subset_equality(day_keys(), keys);
    }
    Some(
        Day {
            maxtemp_c,
            maxtemp_f,
            mintemp_c,
            mintemp_f,
            avgtemp_c,
            avgtemp_f,
            maxwind_mph,
            maxwind_kph,
            totalprecip_mm,
            totalprecip_in,
            totalsnow_cm,
            avgvis_km,
            avgvis_miles,
            avghumidity,
            daily_will_it_rain,
            daily_chance_of_rain,
            daily_will_it_snow,
            daily_chance_of_snow,
            condition,
            uv,
            air_quality,
        },
    )
}

/// Decodes an `Astro` from a JSON value: all of it, or nothing.
pub fn decode_astro(v: &Value) -> (r: Option<Astro>)
    ensures
        match r {
            Some(x) => astro_of(json_view(*v)) == Some(x@),
            None => astro_of(json_view(*v)) is None,
        },
{
    proof {
        lemma_astro_keys_count();
    }
    if !has_member_count(v, 8) {
        return None;
    }
    let sunrise = text_field(v, "sunrise")?;
    let sunset = text_field(v, "sunset")?;
    let moonrise = text_field(v, "moonrise")?;
    let moonset = text_field(v, "moonset")?;
    let moon_phase = text_field(v, "moon_phase")?;
    let moon_illumination = u32_field(v, "moon_illumination")?;
    let is_moon_up = i32_field(v, "is_moon_up")?;
    let is_sun_up = i32_field(v, "is_sun_up")?;
    proof {
        let keys = json_keys(json_view(*v))->0;
        assert(astro_keys().subset_of(keys));
        lemma_subset_equality(astro_keys(), keys);
    }
    Some(
        Astro {
            sunrise,
            sunset,
            moonrise,
            moonset,
            moon_phase,
            moon_illumination,
            is_moon_up,
            is_sun_up,
        },
    )
}

/// Decodes a `Hour` from a JSON value: all of it, or nothing.
pub fn decode_hour(v: &Value) -> (r: Option<Hour>)
    ensures
        match r {
            Some(x) => hour_of(json_view(*v)) == Some(x@),
            None => hour_of(json_view(*v)) is None,
        },
{
    proof {
        lemma_hour_keys_count();
    }
    if !has_member_count(v, 39) {
        return None;
    }
    let time_epoch = i64_field(v, "time_epoch")?;
    let time = text_field(v, "time")?;
    let temp_c = quantity_field(v, "temp_c")?;
    let temp_f = quantity_field(v, "temp_f")?;
    let is_day = i32_field(v, "is_day")?;
    let condition = decode_condition(member(v, "condition")?)?;
    let wind_mph = quantity_field(v, "wind_mph")?;
    let wind_kph = quantity_field(v, "wind_kph")?;
    let wind_degree = i32_field(v, "wind_degree")?;
    let wind_dir = text_field(v, "wind_dir")?;
    let pressure_mb = quantity_field(v, "pressure_mb")?;
    let pressure_in = quantity_field(v, "pressure_in")?;
    let precip_mm = quantity_field(v, "precip_mm")?;
    let precip_in = quantity_field(v, "precip_in")?;
    let snow_cm = quantity_field(v, "snow_cm")?;
    let humidity = i32_field(v, "humidity")?;
    let cloud = i32_field(v, "cloud")?;
    let feelslike_c = quantity_field(v, "feelslike_c")?;
    let feelslike_f = quantity_field(v, "feelslike_f")?;
    let windchill_c = quantity_field(v, "windchill_c")?;
    let windchill_f = quantity_field(v, "windchill_f")?;
    let heatindex_c = quantity_field(v, "heatindex_c")?;
    let heatindex_f = quantity_field(v, "heatindex_f")?;
    let dewpoint_c = quantity_field(v, "dewpoint_c")?;
    let dewpoint_f = quantity_field(v, "dewpoint_f")?;
    let will_it_rain = i32_field(v, "will_it_rain")?;
    let chance_of_rain = i32_field(v, "chance_of_rain")?;
    let will_it_snow = i32_field(v, "will_it_snow")?;
    let chance_of_snow = i32_field(v, "chance_of_snow")?;
    let vis_km = quantity_field(v, "vis_km")?;
    let vis_miles = quantity_field(v, "vis_miles")?;
    let gust_kph = quantity_field(v, "gust_kph")?;
    let gust_mph = quantity_field(v, "gust_mph")?;
    let uv = quantity_field(v, "uv")?;
    let air_quality = decode_air_quality(member(v, "air_quality")?)?;
    let short_rad = quantity_field(v, "short_rad")?;
    let diff_rad = quantity_field(v, "diff_rad")?;
    let dni = quantity_field(v, "dni")?;
    let gti = quantity_field(v, "gti")?;
    proof {
        let keys = json_keys(json_view(*v))->0;
        assert(hour_keys().subset_of(keys));
        lemma_subset_equality(hour_keys(), keys);
    }
    Some(
        Hour {
            time_epoch,
            time,
            temp_c,
            temp_f,
            is_day,
            condition,
            wind_mph,
            wind_kph,
            wind_degree,
            wind_dir,
            pressure_mb,
            pressure_in,
            precip_mm,
            precip_in,
            snow_cm,
            humidity,
            cloud,
            feelslike_c,
            feelslike_f,
            windchill_c,
            windchill_f,
            heatindex_c,
            heatindex_f,
            dewpoint_c,
            dewpoint_f,
            will_it_rain,
            chance_of_rain,
            will_it_snow,
            chance_of_snow,
            vis_km,
            vis_miles,
            gust_kph,
            gust_mph,
            uv,
            air_quality,
            short_rad,
            diff_rad,
            dni,
            gti,
        },
    )
}

/// Decodes the elements of an array as `Hour` entries, keeping their order:
/// all of them, or nothing.
pub fn decode_hours(items: &Vec<Value>) -> (r: Option<Vec<Hour>>)
    ensures
        match r {
            Some(xs) => hours_of(json_views(items@)) == Some(hour_views(xs@)),
            None => hours_of(json_views(items@)) is None,
        },
{
    let mut out: Vec<Hour> = Vec::new();
    let mut i: usize = 0;
    while i < items.len()
        invariant
            i <= items.len(),
            out@.len() == i,
            forall|k: int|
                0 <= k < i ==> #[trigger] hour_of(json_views(items@)[k]) == Some(out@[k]@),
        decreases items.len() - i,
    {
        match decode_hour(&items[i]) {
            Some(x) => {
                out.push(x);
            },
            None => {
                assert(hour_of(json_views(items@)[i as int]) is None);
                return None;
            },
        }
        i += 1;
    }
    assert(hours_of(json_views(items@))->0 =~= hour_views(out@));
    Some(out)
}

/// Decodes a `ForecastDay` from a JSON value: all of it, or nothing.
pub fn decode_forecast_day(v: &Value) -> (r: Option<ForecastDay>)
    ensures
        match r {
            Some(x) => forecast_day_of(json_view(*v)) == Some(x@),
            None => forecast_day_of(json_view(*v)) is None,
        },
{
    proof {
        lemma_forecast_day_keys_count();
    }
    if !has_member_count(v, 5) {
        return None;
    }
    let date = text_field(v, "date")?;
    let date_epoch = i64_field(v, "date_epoch")?;
    let day = decode_day(member(v, "day")?)?;
    let astro = decode_astro(member(v, "astro")?)?;
    let hour = decode_hours(items_of(member(v, "hour")?)?)?;
    proof {
        let keys = json_keys(json_view(*v))->0;
        assert(forecast_day_keys().subset_of(keys));
        lemma_subset_equality(forecast_day_keys(), keys);
    }
    Some(ForecastDay { date, date_epoch, day, astro, hour })
}

/// Decodes the elements of an array as `ForecastDay` entries, keeping their order:
/// all of them, or nothing.
pub fn decode_forecast_days(items: &Vec<Value>) -> (r: Option<Vec<ForecastDay>>)
    ensures
        match r {
            Some(xs) => forecast_days_of(json_views(items@)) == Some(forecast_day_views(xs@)),
            None => forecast_days_of(json_views(items@)) is None,
        },
{
    let mut out: Vec<ForecastDay> = Vec::new();
    let mut i: usize = 0;
    while i < items.len()
        invariant
            i <= items.len(),
            out@.len() == i,
            forall|k: int|
                0 <= k < i ==> #[trigger] forecast_day_of(json_views(items@)[k]) == Some(out@[k]@),
        decreases items.len() - i,
    {
        match decode_forecast_day(&items[i]) {
            Some(x) => {
                out.push(x);
            },
            None => {
                assert(forecast_day_of(json_views(items@)[i as int]) is None);
                return None;
            },
        }
        i += 1;
    }
    assert(forecast_days_of(json_views(items@))->0 =~= forecast_day_views(out@));
    Some(out)
}

/// Decodes a `Forecast` from a JSON value: all of it, or nothing.
pub fn decode_forecast(v: &Value) -> (r: Option<Forecast>)
    ensures
        match r {
            Some(x) => forecast_of(json_view(*v)) == Some(x@),
            None => forecast_of(json_view(*v)) is None,
        },
{
    proof {
        lemma_forecast_keys_count();
    }
    if !has_member_count(v, 1) {
        return None;
    }
    let forecastday = decode_forecast_days(items_of(member(v, "forecastday")?)?)?;
    proof {
        let keys = json_keys(json_view(*v))->0;
        assert(forecast_keys().subset_of(keys));
        lemma_subset_equality(forecast_keys(), keys);
    }
    Some(Forecast { forecastday })
}

/// Decodes a `WeatherData` from a JSON value: all of it, or nothing.
pub fn decode_weather(v: &Value) -> (r: Option<WeatherData>)
    ensures
        match r {
            Some(x) => weather_of(json_view(*v)) == Some(x@),
            None => weather_of(json_view(*v)) is None,
        },
{
    proof {
        lemma_weather_keys_count();
    }
    if !has_member_count(v, 3) {
        return None;
    }
    let location = decode_location(member(v, "location")?)?;
    let current = decode_current(member(v, "current")?)?;
    let forecast = decode_forecast(member(v, "forecast")?)?;
    proof {
        let keys = json_keys(json_view(*v))->0;
        assert(weather_keys().subset_of(keys));
        lemma_subset_equality(weather_keys(), keys);
    }
    Some(WeatherData { location, current, forecast })
}

/// The response that a text decodes to: the text read as a JSON document, and
/// the document decoded as a `WeatherData`.
pub open spec fn weather_document(text: Seq<char>) -> Option<WeatherDataView> {
    match json_document(text) {
        Some(j) => weather_of(j),
        None => None,
    }
}

/// Decodes a response from its text. It succeeds exactly where the text is a
/// JSON document of the shape of a response, and fails as a whole otherwise.
pub fn parse_weather(text: &str) -> (r: Result<WeatherData, DeserializationFailure>)
    ensures
        match r {
            Ok(w) => weather_document(text@) == Some(w@),
            Err(_) => weather_document(text@) is None,
        },
{
    match parse_value(text) {
        Ok(v) => match decode_weather(&v) {
            Some(w) => Ok(w),
            None => Err(DeserializationFailure {}),
        },
        Err(_) => Err(DeserializationFailure {}),
    }
}

/// A document with a member that an `AirQuality` does not have does not decode as
/// one.
pub proof fn lemma_air_quality_refuses_other_members(j: Json, key: Seq<char>)
    requires
        !air_quality_keys().contains(key),
        json_member(j, key) is Some,
    ensures
        air_quality_of(j) is None,
{
}

/// A document that lacks any one member of an `AirQuality` does not decode as one.
pub proof fn lemma_air_quality_needs_every_member(j: Json, key: Seq<char>)
    requires
        air_quality_keys().contains(key),
        json_member(j, key) is None,
    ensures
        air_quality_of(j) is None,
{
}

/// A document with a member that a `Condition` does not have does not decode as
/// one.
pub proof fn lemma_condition_refuses_other_members(j: Json, key: Seq<char>)
    requires
        !condition_keys().contains(key),
        json_member(j, key) is Some,
    ensures
        condition_of(j) is None,
{
}

/// A document that lacks any one member of a `Condition` does not decode as one.
pub proof fn lemma_condition_needs_every_member(j: Json, key: Seq<char>)
    requires
        condition_keys().contains(key),
        json_member(j, key) is None,
    ensures
        condition_of(j) is None,
{
}

/// A document with a member that a `Location` does not have does not decode as
/// one.
pub proof fn lemma_location_refuses_other_members(j: Json, key: Seq<char>)
    requires
        !location_keys().contains(key),
        json_member(j, key) is Some,
    ensures
        location_of(j) is None,
{
}

/// A document that lacks any one member of a `Location` does not decode as one.
pub proof fn lemma_location_needs_every_member(j: Json, key: Seq<char>)
    requires
        location_keys().contains(key),
        json_member(j, key) is None,
    ensures
        location_of(j) is None,
{
}

/// A document with a member that a `Current` does not have does not decode as
/// one.
pub proof fn lemma_current_refuses_other_members(j: Json, key: Seq<char>)
    requires
        !current_keys().contains(key),
        json_member(j, key) is Some,
    ensures
        current_of(j) is None,
{
}

/// A document that lacks any one member of a `Current` does not decode as one.
pub proof fn lemma_current_needs_every_member(j: Json, key: Seq<char>)
    requires
        current_keys().contains(key),
        json_member(j, key) is None,
    ensures
        current_of(j) is None,
{
}

/// A document with a member that a `Day` does not have does not decode as
/// one.
pub proof fn lemma_day_refuses_other_members(j: Json, key: Seq<char>)
    requires
        !day_keys().contains(key),
        json_member(j, key) is Some,
    ensures
        day_of(j) is None,
{
}

/// A document that lacks any one member of a `Day` does not decode as one.
pub proof fn lemma_day_needs_every_member(j: Json, key: Seq<char>)
    requires
        day_keys().contains(key),
        json_member(j, key) is None,
    ensures
        day_of(j) is None,
{
}

/// A document with a member that an `Astro` does not have does not decode as
/// one.
pub proof fn lemma_astro_refuses_other_members(j: Json, key: Seq<char>)
    requires
        !astro_keys().contains(key),
        json_member(j, key) is Some,
    ensures
        astro_of(j) is None,
{
}

/// A document that lacks any one member of an `Astro` does not decode as one.
pub proof fn lemma_astro_needs_every_member(j: Json, key: Seq<char>)
    requires
        astro_keys().contains(key),
        json_member(j, key) is None,
    ensures
        astro_of(j) is None,
{
}

/// A document with a member that a `Hour` does not have does not decode as
/// one.
pub proof fn lemma_hour_refuses_other_members(j: Json, key: Seq<char>)
    requires
        !hour_keys().contains(key),
        json_member(j, key) is Some,
    ensures
        hour_of(j) is None,
{
}

/// A document that lacks any one member of a `Hour` does not decode as one.
pub proof fn lemma_hour_needs_every_member(j: Json, key: Seq<char>)
    requires
        hour_keys().contains(key),
        json_member(j, key) is None,
    ensures
        hour_of(j) is None,
{
}

/// A document with a member that a `ForecastDay` does not have does not decode as
/// one.
pub proof fn lemma_forecast_day_refuses_other_members(j: Json, key: Seq<char>)
    requires
        !forecast_day_keys().contains(key),
        json_member(j, key) is Some,
    ensures
        forecast_day_of(j) is None,
{
}

/// A document that lacks any one member of a `ForecastDay` does not decode as one.
pub proof fn lemma_forecast_day_needs_every_member(j: Json, key: Seq<char>)
    requires
        forecast_day_keys().contains(key),
        json_member(j, key) is None,
    ensures
        forecast_day_of(j) is None,
{
}

/// A document with a member that a `Forecast` does not have does not decode as
/// one.
pub proof fn lemma_forecast_refuses_other_members(j: Json, key: Seq<char>)
    requires
        !forecast_keys().contains(key),
        json_member(j, key) is Some,
    ensures
        forecast_of(j) is None,
{
}

/// A document that lacks any one member of a `Forecast` does not decode as one.
pub proof fn lemma_forecast_needs_every_member(j: Json, key: Seq<char>)
    requires
        forecast_keys().contains(key),
        json_member(j, key) is None,
    ensures
        forecast_of(j) is None,
{
}

/// A document with a member that a `WeatherData` does not have does not decode as
/// one.
pub proof fn lemma_weather_refuses_other_members(j: Json, key: Seq<char>)
    requires
        !weather_keys().contains(key),
        json_member(j, key) is Some,
    ensures
        weather_of(j) is None,
{
}

/// A document that lacks any one member of a `WeatherData` does not decode as one.
pub proof fn lemma_weather_needs_every_member(j: Json, key: Seq<char>)
    requires
        weather_keys().contains(key),
        json_member(j, key) is None,
    ensures
        weather_of(j) is None,
{
}

/// A decoded day holds as many hours as the array of its document has
/// elements, and each hour is what the element at its place decodes to.
pub proof fn lemma_hours_follow_the_array(j: Json, i: int)
    requires
        forecast_day_of(j) is Some,
    ensures
        json_member(j, "hour"@) is Some,
        json_items(json_member(j, "hour"@)->0) is Some,
        forecast_day_of(j)->0.hour.len() == json_items(json_member(j, "hour"@)->0)->0.len(),
        0 <= i < forecast_day_of(j)->0.hour.len() ==> hour_of(
            json_items(json_member(j, "hour"@)->0)->0[i],
        ) == Some(forecast_day_of(j)->0.hour[i]),
{
}

/// A decoded forecast holds as many days as the array of its document has
/// elements, and each day is what the element at its place decodes to.
pub proof fn lemma_days_follow_the_array(j: Json, i: int)
    requires
        forecast_of(j) is Some,
    ensures
        json_member(j, "forecastday"@) is Some,
        json_items(json_member(j, "forecastday"@)->0) is Some,
        forecast_of(j)->0.forecastday.len() == json_items(
            json_member(j, "forecastday"@)->0,
        )->0.len(),
        0 <= i < forecast_of(j)->0.forecastday.len() ==> forecast_day_of(
            json_items(json_member(j, "forecastday"@)->0)->0[i],
        ) == Some(forecast_of(j)->0.forecastday[i]),
{
}

} // verus!
