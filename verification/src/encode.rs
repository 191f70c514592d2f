//! Writing a response back as a JSON document, member by member under the
//! keys of the schema, and the laws that tie it to decoding: what is written
//! decodes to what was written from, and a document that decodes is written
//! back as the same document.

use crate::decode::{
    air_quality_keys, air_quality_of, astro_keys, astro_of, condition_keys, condition_of,
    current_keys, current_of, day_keys, day_of, forecast_day_keys, forecast_day_of,
    forecast_days_of, forecast_keys, forecast_of, hour_keys, hour_of, hours_of,
    lemma_air_quality_keys_differ, lemma_astro_keys_differ, lemma_condition_keys_differ,
    lemma_current_keys_differ, lemma_day_keys_differ, lemma_forecast_day_keys_differ,
    lemma_forecast_keys_differ, lemma_hour_keys_differ, lemma_location_keys_differ,
    lemma_weather_keys_differ, location_keys, location_of, weather_keys, weather_of,
};
use crate::json::{
    array_value, empty_object, insert_member, integer_value, json_member, json_view,
    json_views, number_value, text_value, Json, JsonNumber,
};
use crate::model::{
    forecast_day_views, hour_views, AirQuality, AirQualityView, Astro, AstroView, Condition,
    ConditionView, Current, CurrentView, Day, DayView, Forecast, ForecastDay, ForecastDayView,
    ForecastView, Hour, HourView, Location, LocationView, WeatherData, WeatherDataView,
};
use serde_json::Value;
use vstd::prelude::*;

verus! {

/// The document that an `AirQuality` is written as: an object with one member for
/// each of its fields, under the key of the schema.
pub open spec fn air_quality_json(x: AirQualityView) -> Json {
    Json::Object(
        Map::<Seq<char>, Json>::empty()
            .insert("co"@, Json::Number(x.co))
            .insert("no2"@, Json::Number(x.no2))
            .insert("o3"@, Json::Number(x.o3))
            .insert("so2"@, Json::Number(x.so2))
            .insert("pm2_5"@, Json::Number(x.pm2_5))
            .insert("pm10"@, Json::Number(x.pm10))
            .insert("us-epa-index"@, Json::Number(JsonNumber::Integer(x.us_epa_index as int)))
            .insert("gb-defra-index"@, Json::Number(JsonNumber::Integer(x.gb_defra_index as int))),
    )
}

/// The document that a `Condition` is written as: an object with one member for
/// each of its fields, under the key of the schema.
pub open spec fn condition_json(x: ConditionView) -> Json {
    Json::Object(
        Map::<Seq<char>, Json>::empty()
            .insert("text"@, Json::Text(x.text))
            .insert("icon"@, Json::Text(x.icon))
            .insert("code"@, Json::Number(JsonNumber::Integer(x.code as int))),
    )
}

/// The document that a `Location` is written as: an object with one member for
/// each of its fields, under the key of the schema.
pub open spec fn location_json(x: LocationView) -> Json {
    Json::Object(
        Map::<Seq<char>, Json>::empty()
            .insert("name"@, Json::Text(x.name))
            .insert("region"@, Json::Text(x.region))
            .insert("country"@, Json::Text(x.country))
            .insert("lat"@, Json::Number(x.lat))
            .insert("lon"@, Json::Number(x.lon))
            .insert("tz_id"@, Json::Text(x.tz_id))
            .insert("localtime_epoch"@, Json::Number(JsonNumber::Integer(x.localtime_epoch as int)))
            .insert("localtime"@, Json::Text(x.localtime)),
    )
}

/// The document that a `Current` is written as: an object with one member for
/// each of its fields, under the key of the schema.
pub open spec fn current_json(x: CurrentView) -> Json {
    Json::Object(
        Map::<Seq<char>, Json>::empty()
            .insert(
                "last_updated_epoch"@,
                Json::Number(JsonNumber::Integer(x.last_updated_epoch as int)),
            )
            .insert("last_updated"@, Json::Text(x.last_updated))
            .insert("temp_c"@, Json::Number(x.temp_c))
            .insert("temp_f"@, Json::Number(x.temp_f))
            .insert("is_day"@, Json::Number(JsonNumber::Integer(x.is_day as int)))
            .insert("condition"@, condition_json(x.condition))
            .insert("wind_mph"@, Json::Number(x.wind_mph))
            .insert("wind_kph"@, Json::Number(x.wind_kph))
            .insert("wind_degree"@, Json::Number(JsonNumber::Integer(x.wind_degree as int)))
            .insert("wind_dir"@, Json::Text(x.wind_dir))
            .insert("pressure_mb"@, Json::Number(x.pressure_mb))
            .insert("pressure_in"@, Json::Number(x.pressure_in))
            .insert("precip_mm"@, Json::Number(x.precip_mm))
            .insert("precip_in"@, Json::Number(x.precip_in))
            .insert("humidity"@, Json::Number(JsonNumber::Integer(x.humidity as int)))
            .insert("cloud"@, Json::Number(JsonNumber::Integer(x.cloud as int)))
            .insert("feelslike_c"@, Json::Number(x.feelslike_c))
            .insert("feelslike_f"@, Json::Number(x.feelslike_f))
            .insert("windchill_c"@, Json::Number(x.windchill_c))
            .insert("windchill_f"@, Json::Number(x.windchill_f))
            .insert("heatindex_c"@, Json::Number(x.heatindex_c))
            .insert("heatindex_f"@, Json::Number(x.heatindex_f))
            .insert("dewpoint_c"@, Json::Number(x.dewpoint_c))
            .insert("dewpoint_f"@, Json::Number(x.dewpoint_f))
            .insert("vis_km"@, Json::Number(x.vis_km))
            .insert("vis_miles"@, Json::Number(x.vis_miles))
            .insert("uv"@, Json::Number(x.uv))
            .insert("gust_mph"@, Json::Number(x.gust_mph))
            .insert("gust_kph"@, Json::Number(x.gust_kph))
            .insert("air_quality"@, air_quality_json(x.air_quality))
            .insert("short_rad"@, Json::Number(x.short_rad))
            .insert("diff_rad"@, Json::Number(x.diff_rad))
            .insert("dni"@, Json::Number(x.dni))
            .insert("gti"@, Json::Number(x.gti)),
    )
}

/// The document that a `Day` is written as: an object with one member for
/// each of its fields, under the key of the schema.
pub open spec fn day_json(x: DayView) -> Json {
    Json::Object(
        Map::<Seq<char>, Json>::empty()
            .insert("maxtemp_c"@, Json::Number(x.maxtemp_c))
            .insert("maxtemp_f"@, Json::Number(x.maxtemp_f))
            .insert("mintemp_c"@, Json::Number(x.mintemp_c))
            .insert("mintemp_f"@, Json::Number(x.mintemp_f))
            .insert("avgtemp_c"@, Json::Number(x.avgtemp_c))
            .insert("avgtemp_f"@, Json::Number(x.avgtemp_f))
            .insert("maxwind_mph"@, Json::Number(x.maxwind_mph))
            .insert("maxwind_kph"@, Json::Number(x.maxwind_kph))
            .insert("totalprecip_mm"@, Json::Number(x.totalprecip_mm))
            .insert("totalprecip_in"@, Json::Number(x.totalprecip_in))
            .insert("totalsnow_cm"@, Json::Number(x.totalsnow_cm))
            .insert("avgvis_km"@, Json::Number(x.avgvis_km))
            .insert("avgvis_miles"@, Json::Number(x.avgvis_miles))
            .insert("avghumidity"@, Json::Number(JsonNumber::Integer(x.avghumidity as int)))
            .insert(
                "daily_will_it_rain"@,
                Json::Number(JsonNumber::Integer(x.daily_will_it_rain as int)),
            )
            .insert(
                "daily_chance_of_rain"@,
                Json::Number(JsonNumber::Integer(x.daily_chance_of_rain as int)),
            )
            .insert(
                "daily_will_it_snow"@,
                Json::Number(JsonNumber::Integer(x.daily_will_it_snow as int)),
            )
            .insert(
                "daily_chance_of_snow"@,
                Json::Number(JsonNumber::Integer(x.daily_chance_of_snow as int)),
            )
            .insert("condition"@, condition_json(x.condition))
            .insert("uv"@, Json::Number(x.uv))
            .insert("air_quality"@, air_quality_json(x.air_quality)),
    )
}

/// The document that an `Astro` is written as: an object with one member for
/// each of its fields, under the key of the schema.
pub open spec fn astro_json(x: AstroView) -> Json {
    Json::Object(
        Map::<Seq<char>, Json>::empty()
            .insert("sunrise"@, Json::Text(x.sunrise))
            .insert("sunset"@, Json::Text(x.sunset))
            .insert("moonrise"@, Json::Text(x.moonrise))
            .insert("moonset"@, Json::Text(x.moonset))
            .insert("moon_phase"@, Json::Text(x.moon_phase))
            .insert(
                "moon_illumination"@,
                Json::Number(JsonNumber::Integer(x.moon_illumination as int)),
            )
            .insert("is_moon_up"@, Json::Number(JsonNumber::Integer(x.is_moon_up as int)))
            .insert("is_sun_up"@, Json::Number(JsonNumber::Integer(x.is_sun_up as int))),
    )
}

/// The document that a `Hour` is written as: an object with one member for
/// each of its fields, under the key of the schema.
pub open spec fn hour_json(x: HourView) -> Json {
    Json::Object(
        Map::<Seq<char>, Json>::empty()
            .insert("time_epoch"@, Json::Number(JsonNumber::Integer(x.time_epoch as int)))
            .insert("time"@, Json::Text(x.time))
            .insert("temp_c"@, Json::Number(x.temp_c))
            .insert("temp_f"@, Json::Number(x.temp_f))
            .insert("is_day"@, Json::Number(JsonNumber::Integer(x.is_day as int)))
            .insert("condition"@, condition_json(x.condition))
            .insert("wind_mph"@, Json::Number(x.wind_mph))
            .insert("wind_kph"@, Json::Number(x.wind_kph))
            .insert("wind_degree"@, Json::Number(JsonNumber::Integer(x.wind_degree as int)))
            .insert("wind_dir"@, Json::Text(x.wind_dir))
            .insert("pressure_mb"@, Json::Number(x.pressure_mb))
            .insert("pressure_in"@, Json::Number(x.pressure_in))
            .insert("precip_mm"@, Json::Number(x.precip_mm))
            .insert("precip_in"@, Json::Number(x.precip_in))
            .insert("snow_cm"@, Json::Number(x.snow_cm))
            .insert("humidity"@, Json::Number(JsonNumber::Integer(x.humidity as int)))
            .insert("cloud"@, Json::Number(JsonNumber::Integer(x.cloud as int)))
            .insert("feelslike_c"@, Json::Number(x.feelslike_c))
            .insert("feelslike_f"@, Json::Number(x.feelslike_f))
            .insert("windchill_c"@, Json::Number(x.windchill_c))
            .insert("windchill_f"@, Json::Number(x.windchill_f))
            .insert("heatindex_c"@, Json::Number(x.heatindex_c))
            .insert("heatindex_f"@, Json::Number(x.heatindex_f))
            .insert("dewpoint_c"@, Json::Number(x.dewpoint_c))
            .insert("dewpoint_f"@, Json::Number(x.dewpoint_f))
            .insert("will_it_rain"@, Json::Number(JsonNumber::Integer(x.will_it_rain as int)))
            .insert("chance_of_rain"@, Json::Number(JsonNumber::Integer(x.chance_of_rain as int)))
            .insert("will_it_snow"@, Json::Number(JsonNumber::Integer(x.will_it_snow as int)))
            .insert("chance_of_snow"@, Json::Number(JsonNumber::Integer(x.chance_of_snow as int)))
            .insert("vis_km"@, Json::Number(x.vis_km))
            .insert("vis_miles"@, Json::Number(x.vis_miles))
            .insert("gust_kph"@, Json::Number(x.gust_kph))
            .insert("gust_mph"@, Json::Number(x.gust_mph))
            .insert("uv"@, Json::Number(x.uv))
            .insert("air_quality"@, air_quality_json(x.air_quality))
            .insert("short_rad"@, Json::Number(x.short_rad))
            .insert("diff_rad"@, Json::Number(x.diff_rad))
            .insert("dni"@, Json::Number(x.dni))
            .insert("gti"@, Json::Number(x.gti)),
    )
}

/// The documents that `Hour` entries are written as, one by one.
pub open spec fn hours_json(xs: Seq<HourView>) -> Seq<Json> {
    Seq::new(xs.len(), |i: int| hour_json(xs[i]))
}

/// The document that a `ForecastDay` is written as: an object with one member for
/// each of its fields, under the key of the schema.
pub open spec fn forecast_day_json(x: ForecastDayView) -> Json {
    Json::Object(
        Map::<Seq<char>, Json>::empty()
            .insert("date"@, Json::Text(x.date))
            .insert("date_epoch"@, Json::Number(JsonNumber::Integer(x.date_epoch as int)))
            .insert("day"@, day_json(x.day))
            .insert("astro"@, astro_json(x.astro))
            .insert("hour"@, Json::Array(hours_json(x.hour))),
    )
}

/// The documents that `ForecastDay` entries are written as, one by one.
pub open spec fn forecast_days_json(xs: Seq<ForecastDayView>) -> Seq<Json> {
    Seq::new(xs.len(), |i: int| forecast_day_json(xs[i]))
}

/// The document that a `Forecast` is written as: an object with one member for
/// each of its fields, under the key of the schema.
pub open spec fn forecast_json(x: ForecastView) -> Json {
    Json::Object(
        Map::<Seq<char>, Json>::empty()
            .insert("forecastday"@, Json::Array(forecast_days_json(x.forecastday))),
    )
}

/// The document that a `WeatherData` is written as: an object with one member for
/// each of its fields, under the key of the schema.
pub open spec fn weather_json(x: WeatherDataView) -> Json {
    Json::Object(
        Map::<Seq<char>, Json>::empty()
            .insert("location"@, location_json(x.location))
            .insert("current"@, current_json(x.current))
            .insert("forecast"@, forecast_json(x.forecast)),
    )
}

/// Writes an `AirQuality` as a JSON value.
pub fn encode_air_quality(x: &AirQuality) -> (r: Value)
    ensures
        json_view(r) == air_quality_json(x@),
{
    let mut r = empty_object();
    insert_member(&mut r, "co", number_value(&x.co.number));
    insert_member(&mut r, "no2", number_value(&x.no2.number));
    insert_member(&mut r, "o3", number_value(&x.o3.number));
    insert_member(&mut r, "so2", number_value(&x.so2.number));
    insert_member(&mut r, "pm2_5", number_value(&x.pm2_5.number));
    insert_member(&mut r, "pm10", number_value(&x.pm10.number));
    insert_member(&mut r, "us-epa-index", integer_value(x.us_epa_index as i64));
    insert_member(&mut r, "gb-defra-index", integer_value(x.gb_defra_index as i64));
    r
}

/// Writes a `Condition` as a JSON value.
pub fn encode_condition(x: &Condition) -> (r: Value)
    ensures
        json_view(r) == condition_json(x@),
{
    let mut r = empty_object();
    insert_member(&mut r, "text", text_value(x.text.as_str()));
    insert_member(&mut r, "icon", text_value(x.icon.as_str()));
    insert_member(&mut r, "code", integer_value(x.code as i64));
    r
}

/// Writes a `Location` as a JSON value.
pub fn encode_location(x: &Location) -> (r: Value)
    ensures
        json_view(r) == location_json(x@),
{
    let mut r = empty_object();
    insert_member(&mut r, "name", text_value(x.name.as_str()));
    insert_member(&mut r, "region", text_value(x.region.as_str()));
    insert_member(&mut r, "country", text_value(x.country.as_str()));
    insert_member(&mut r, "lat", number_value(&x.lat.number));
    insert_member(&mut r, "lon", number_value(&x.lon.number));
    insert_member(&mut r, "tz_id", text_value(x.tz_id.as_str()));
    insert_member(&mut r, "localtime_epoch", integer_value(x.localtime_epoch));
    insert_member(&mut r, "localtime", text_value(x.localtime.as_str()));
    r
}

/// Writes a `Current` as a JSON value.
pub fn encode_current(x: &Current) -> (r: Value)
    ensures
        json_view(r) == current_json(x@),
{
    let mut r = empty_object();
    insert_member(&mut r, "last_updated_epoch", integer_value(x.last_updated_epoch));
    insert_member(&mut r, "last_updated", text_value(x.last_updated.as_str()));
    insert_member(&mut r, "temp_c", number_value(&x.temp_c.number));
    insert_member(&mut r, "temp_f", number_value(&x.temp_f.number));
    insert_member(&mut r, "is_day", integer_value(x.is_day as i64));
    insert_member(&mut r, "condition", encode_condition(&x.condition));
    insert_member(&mut r, "wind_mph", number_value(&x.wind_mph.number));
    insert_member(&mut r, "wind_kph", number_value(&x.wind_kph.number));
    insert_member(&mut r, "wind_degree", integer_value(x.wind_degree as i64));
    insert_member(&mut r, "wind_dir", text_value(x.wind_dir.as_str()));
    insert_member(&mut r, "pressure_mb", number_value(&x.pressure_mb.number));
    insert_member(&mut r, "pressure_in", number_value(&x.pressure_in.number));
    insert_member(&mut r, "precip_mm", number_value(&x.precip_mm.number));
    insert_member(&mut r, "precip_in", number_value(&x.precip_in.number));
    insert_member(&mut r, "humidity", integer_value(x.humidity as i64));
    insert_member(&mut r, "cloud", integer_value(x.cloud as i64));
    insert_member(&mut r, "feelslike_c", number_value(&x.feelslike_c.number));
    insert_member(&mut r, "feelslike_f", number_value(&x.feelslike_f.number));
    insert_member(&mut r, "windchill_c", number_value(&x.windchill_c.number));
    insert_member(&mut r, "windchill_f", number_value(&x.windchill_f.number));
    insert_member(&mut r, "heatindex_c", number_value(&x.heatindex_c.number));
    insert_member(&mut r, "heatindex_f", number_value(&x.heatindex_f.number));
    insert_member(&mut r, "dewpoint_c", number_value(&x.dewpoint_c.number));
    insert_member(&mut r, "dewpoint_f", number_value(&x.dewpoint_f.number));
    insert_member(&mut r, "vis_km", number_value(&x.vis_km.number));
    insert_member(&mut r, "vis_miles", number_value(&x.vis_miles.number));
    insert_member(&mut r, "uv", number_value(&x.uv.number));
    insert_member(&mut r, "gust_mph", number_value(&x.gust_mph.number));
    insert_member(&mut r, "gust_kph", number_value(&x.gust_kph.number));
    insert_member(&mut r, "air_quality", encode_air_quality(&x.air_quality));
    insert_member(&mut r, "short_rad", number_value(&x.short_rad.number));
    insert_member(&mut r, "diff_rad", number_value(&x.diff_rad.number));
    insert_member(&mut r, "dni", number_value(&x.dni.number));
    insert_member(&mut r, "gti", number_value(&x.gti.number));
    r
}

/// Writes a `Day` as a JSON value.
pub fn encode_day(x: &Day) -> (r: Value)
    ensures
        json_view(r) == day_json(x@),
{
    let mut r = empty_object();
    insert_member(&mut r, "maxtemp_c", number_value(&x.maxtemp_c.number));
    insert_member(&mut r, "maxtemp_f", number_value(&x.maxtemp_f.number));
    insert_member(&mut r, "mintemp_c", number_value(&x.mintemp_c.number));
    insert_member(&mut r, "mintemp_f", number_value(&x.mintemp_f.number));
    insert_member(&mut r, "avgtemp_c", number_value(&x.avgtemp_c.number));
    insert_member(&mut r, "avgtemp_f", number_value(&x.avgtemp_f.number));
    insert_member(&mut r, "maxwind_mph", number_value(&x.maxwind_mph.number));
    insert_member(&mut r, "maxwind_kph", number_value(&x.maxwind_kph.number));
    insert_member(&mut r, "totalprecip_mm", number_value(&x.totalprecip_mm.number));
    insert_member(&mut r, "totalprecip_in", number_value(&x.totalprecip_in.number));
    insert_member(&mut r, "totalsnow_cm", number_value(&x.totalsnow_cm.number));
    insert_member(&mut r, "avgvis_km", number_value(&x.avgvis_km.number));
    insert_member(&mut r, "avgvis_miles", number_value(&x.avgvis_miles.number));
    insert_member(&mut r, "avghumidity", integer_value(x.avghumidity as i64));
    insert_member(&mut r, "daily_will_it_rain", integer_value(x.daily_will_it_rain as i64));
    insert_member(&mut r, "daily_chance_of_rain", integer_value(x.daily_chance_of_rain as i64));
    insert_member(&mut r, "daily_will_it_snow", integer_value(x.daily_will_it_snow as i64));
    insert_member(&mut r, "daily_chance_of_snow", integer_value(x.daily_chance_of_snow as i64));
    insert_member(&mut r, "condition", encode_condition(&x.condition));
    insert_member(&mut r, "uv", number_value(&x.uv.number));
    insert_member(&mut r, "air_quality", encode_air_quality(&x.air_quality));
    r
}

/// Writes an `Astro` as a JSON value.
pub fn encode_astro(x: &Astro) -> (r: Value)
    ensures
        json_view(r) == astro_json(x@),
{
    let mut r = empty_object();
    insert_member(&mut r, "sunrise", text_value(x.sunrise.as_str()));
    insert_member(&mut r, "sunset", text_value(x.sunset.as_str()));
    insert_member(&mut r, "moonrise", text_value(x.moonrise.as_str()));
    insert_member(&mut r, "moonset", text_value(x.moonset.as_str()));
    insert_member(&mut r, "moon_phase", text_value(x.moon_phase.as_str()));
    insert_member(&mut r, "moon_illumination", integer_value(x.moon_illumination as i64));
    insert_member(&mut r, "is_moon_up", integer_value(x.is_moon_up as i64));
    insert_member(&mut r, "is_sun_up", integer_value(x.is_sun_up as i64));
    r
}

/// Writes a `Hour` as a JSON value.
pub fn encode_hour(x: &Hour) -> (r: Value)
    ensures
        json_view(r) == hour_json(x@),
{
    let mut r = empty_object();
    insert_member(&mut r, "time_epoch", integer_value(x.time_epoch));
    insert_member(&mut r, "time", text_value(x.time.as_str()));
    insert_member(&mut r, "temp_c", number_value(&x.temp_c.number));
    insert_member(&mut r, "temp_f", number_value(&x.temp_f.number));
    insert_member(&mut r, "is_day", integer_value(x.is_day as i64));
    insert_member(&mut r, "condition", encode_condition(&x.condition));
    insert_member(&mut r, "wind_mph", number_value(&x.wind_mph.number));
    insert_member(&mut r, "wind_kph", number_value(&x.wind_kph.number));
    insert_member(&mut r, "wind_degree", integer_value(x.wind_degree as i64));
    insert_member(&mut r, "wind_dir", text_value(x.wind_dir.as_str()));
    insert_member(&mut r, "pressure_mb", number_value(&x.pressure_mb.number));
    insert_member(&mut r, "pressure_in", number_value(&x.pressure_in.number));
    insert_member(&mut r, "precip_mm", number_value(&x.precip_mm.number));
    insert_member(&mut r, "precip_in", number_value(&x.precip_in.number));
    insert_member(&mut r, "snow_cm", number_value(&x.snow_cm.number));
    insert_member(&mut r, "humidity", integer_value(x.humidity as i64));
    insert_member(&mut r, "cloud", integer_value(x.cloud as i64));
    insert_member(&mut r, "feelslike_c", number_value(&x.feelslike_c.number));
    insert_member(&mut r, "feelslike_f", number_value(&x.feelslike_f.number));
    insert_member(&mut r, "windchill_c", number_value(&x.windchill_c.number));
    insert_member(&mut r, "windchill_f", number_value(&x.windchill_f.number));
    insert_member(&mut r, "heatindex_c", number_value(&x.heatindex_c.number));
    insert_member(&mut r, "heatindex_f", number_value(&x.heatindex_f.number));
    insert_member(&mut r, "dewpoint_c", number_value(&x.dewpoint_c.number));
    insert_member(&mut r, "dewpoint_f", number_value(&x.dewpoint_f.number));
    insert_member(&mut r, "will_it_rain", integer_value(x.will_it_rain as i64));
    insert_member(&mut r, "chance_of_rain", integer_value(x.chance_of_rain as i64));
    insert_member(&mut r, "will_it_snow", integer_value(x.will_it_snow as i64));
    insert_member(&mut r, "chance_of_snow", integer_value(x.chance_of_snow as i64));
    insert_member(&mut r, "vis_km", number_value(&x.vis_km.number));
    insert_member(&mut r, "vis_miles", number_value(&x.vis_miles.number));
    insert_member(&mut r, "gust_kph", number_value(&x.gust_kph.number));
    insert_member(&mut r, "gust_mph", number_value(&x.gust_mph.number));
    insert_member(&mut r, "uv", number_value(&x.uv.number));
    insert_member(&mut r, "air_quality", encode_air_quality(&x.air_quality));
    insert_member(&mut r, "short_rad", number_value(&x.short_rad.number));
    insert_member(&mut r, "diff_rad", number_value(&x.diff_rad.number));
    insert_member(&mut r, "dni", number_value(&x.dni.number));
    insert_member(&mut r, "gti", number_value(&x.gti.number));
    r
}

/// Writes `Hour` entries as JSON values, keeping their order.
pub fn encode_hours(xs: &Vec<Hour>) -> (r: Vec<Value>)
    ensures
        json_views(r@) == hours_json(hour_views(xs@)),
{
    let mut r: Vec<Value> = Vec::new();
    let mut i: usize = 0;
    while i < xs.len()
        invariant
            i <= xs.len(),
            r@.len() == i,
            forall|k: int| 0 <= k < i ==> #[trigger] json_view(r@[k]) == hour_json(xs@[k]@),
        decreases xs.len() - i,
    {
        r.push(encode_hour(&xs[i]));
        i += 1;
    }
    assert(json_views(r@) =~= hours_json(hour_views(xs@)));
    r
}

/// Writes a `ForecastDay` as a JSON value.
pub fn encode_forecast_day(x: &ForecastDay) -> (r: Value)
    ensures
        json_view(r) == forecast_day_json(x@),
{
    let mut r = empty_object();
    insert_member(&mut r, "date", text_value(x.date.as_str()));
    insert_member(&mut r, "date_epoch", integer_value(x.date_epoch));
    insert_member(&mut r, "day", encode_day(&x.day));
    insert_member(&mut r, "astro", encode_astro(&x.astro));
    insert_member(&mut r, "hour", array_value(encode_hours(&x.hour)));
    r
}

/// Writes `ForecastDay` entries as JSON values, keeping their order.
pub fn encode_forecast_days(xs: &Vec<ForecastDay>) -> (r: Vec<Value>)
    ensures
        json_views(r@) == forecast_days_json(forecast_day_views(xs@)),
{
    let mut r: Vec<Value> = Vec::new();
    let mut i: usize = 0;
    while i < xs.len()
        invariant
            i <= xs.len(),
            r@.len() == i,
            forall|k: int| 0 <= k < i ==> #[trigger] json_view(r@[k]) == forecast_day_json(xs@[k]@),
        decreases xs.len() - i,
    {
        r.push(encode_forecast_day(&xs[i]));
        i += 1;
    }
    assert(json_views(r@) =~= forecast_days_json(forecast_day_views(xs@)));
    r
}

/// Writes a `Forecast` as a JSON value.
pub fn encode_forecast(x: &Forecast) -> (r: Value)
    ensures
        json_view(r) == forecast_json(x@),
{
    let mut r = empty_object();
    insert_member(&mut r, "forecastday", array_value(encode_forecast_days(&x.forecastday)));
    r
}

/// Writes a `WeatherData` as a JSON value.
pub fn encode_weather(x: &WeatherData) -> (r: Value)
    ensures
        json_view(r) == weather_json(x@),
        weather_of(json_view(r)) == Some(x@),
{
    proof {
        lemma_weather_round_trip(x@);
    }
    let mut r = empty_object();
    insert_member(&mut r, "location", encode_location(&x.location));
    insert_member(&mut r, "current", encode_current(&x.current));
    insert_member(&mut r, "forecast", encode_forecast(&x.forecast));
    r
}

/// An `AirQuality` that is written as a document and decoded again is the same
/// as before, and the document has the keys of the schema and no others.
pub proof fn lemma_air_quality_round_trip(x: AirQualityView)
    ensures
        air_quality_of(air_quality_json(x)) == Some(x),
        air_quality_json(x)->Object_0.dom() =~= air_quality_keys(),
{
    lemma_air_quality_keys_differ();
}

/// A `Condition` that is written as a document and decoded again is the same
/// as before, and the document has the keys of the schema and no others.
pub proof fn lemma_condition_round_trip(x: ConditionView)
    ensures
        condition_of(condition_json(x)) == Some(x),
        condition_json(x)->Object_0.dom() =~= condition_keys(),
{
    lemma_condition_keys_differ();
}

/// A `Location` that is written as a document and decoded again is the same
/// as before, and the document has the keys of the schema and no others.
pub proof fn lemma_location_round_trip(x: LocationView)
    ensures
        location_of(location_json(x)) == Some(x),
        location_json(x)->Object_0.dom() =~= location_keys(),
{
    lemma_location_keys_differ();
}

/// A `Current` that is written as a document and decoded again is the same
/// as before, and the document has the keys of the schema and no others.
pub proof fn lemma_current_round_trip(x: CurrentView)
    ensures
        current_of(current_json(x)) == Some(x),
        current_json(x)->Object_0.dom() =~= current_keys(),
{
    lemma_current_keys_differ();
    lemma_condition_round_trip(x.condition);
    lemma_air_quality_round_trip(x.air_quality);
}

/// A `Day` that is written as a document and decoded again is the same
/// as before, and the document has the keys of the schema and no others.
pub proof fn lemma_day_round_trip(x: DayView)
    ensures
        day_of(day_json(x)) == Some(x),
        day_json(x)->Object_0.dom() =~= day_keys(),
{
    lemma_day_keys_differ();
    lemma_condition_round_trip(x.condition);
    lemma_air_quality_round_trip(x.air_quality);
}

/// An `Astro` that is written as a document and decoded again is the same
/// as before, and the document has the keys of the schema and no others.
pub proof fn lemma_astro_round_trip(x: AstroView)
    ensures
        astro_of(astro_json(x)) == Some(x),
        astro_json(x)->Object_0.dom() =~= astro_keys(),
{
    lemma_astro_keys_differ();
}

/// A `Hour` that is written as a document and decoded again is the same
/// as before, and the document has the keys of the schema and no others.
pub proof fn lemma_hour_round_trip(x: HourView)
    ensures
        hour_of(hour_json(x)) == Some(x),
        hour_json(x)->Object_0.dom() =~= hour_keys(),
{
    lemma_hour_keys_differ();
    lemma_condition_round_trip(x.condition);
    lemma_air_quality_round_trip(x.air_quality);
}

/// `Hour` entries that are written as documents and decoded again are the
/// same as before, in the same order.
pub proof fn lemma_hours_round_trip(xs: Seq<HourView>)
    ensures
        hours_of(hours_json(xs)) == Some(xs),
{
    assert forall|i: int| 0 <= i < xs.len() implies
        #[trigger] hour_of(hours_json(xs)[i]) == Some(xs[i]) by {
        lemma_hour_round_trip(xs[i]);
    }
    assert(hours_of(hours_json(xs))->0 =~= xs);
}

/// A `ForecastDay` that is written as a document and decoded again is the same
/// as before, and the document has the keys of the schema and no others.
pub proof fn lemma_forecast_day_round_trip(x: ForecastDayView)
    ensures
        forecast_day_of(forecast_day_json(x)) == Some(x),
        forecast_day_json(x)->Object_0.dom() =~= forecast_day_keys(),
{
    lemma_forecast_day_keys_differ();
    lemma_day_round_trip(x.day);
    lemma_astro_round_trip(x.astro);
    lemma_hours_round_trip(x.hour);
}

/// `ForecastDay` entries that are written as documents and decoded again are the
/// same as before, in the same order.
pub proof fn lemma_forecast_days_round_trip(xs: Seq<ForecastDayView>)
    ensures
        forecast_days_of(forecast_days_json(xs)) == Some(xs),
{
    assert forall|i: int| 0 <= i < xs.len() implies
        #[trigger] forecast_day_of(forecast_days_json(xs)[i]) == Some(xs[i]) by {
        lemma_forecast_day_round_trip(xs[i]);
    }
    assert(forecast_days_of(forecast_days_json(xs))->0 =~= xs);
}

/// A `Forecast` that is written as a document and decoded again is the same
/// as before, and the document has the keys of the schema and no others.
pub proof fn lemma_forecast_round_trip(x: ForecastView)
    ensures
        forecast_of(forecast_json(x)) == Some(x),
        forecast_json(x)->Object_0.dom() =~= forecast_keys(),
{
    lemma_forecast_keys_differ();
    lemma_forecast_days_round_trip(x.forecastday);
}

/// A `WeatherData` that is written as a document and decoded again is the same
/// as before, and the document has the keys of the schema and no others.
pub proof fn lemma_weather_round_trip(x: WeatherDataView)
    ensures
        weather_of(weather_json(x)) == Some(x),
        weather_json(x)->Object_0.dom() =~= weather_keys(),
{
    lemma_weather_keys_differ();
    lemma_location_round_trip(x.location);
    lemma_current_round_trip(x.current);
    lemma_forecast_round_trip(x.forecast);
}

/// A document of an `AirQuality`, decoded and written again, is the same
/// document.
pub proof fn lemma_air_quality_rewritten_is_the_same(j: Json)
    requires
        air_quality_of(j) is Some,
    ensures
        air_quality_json(air_quality_of(j)->0) == j,
{
    lemma_air_quality_keys_differ();
    assert(air_quality_json(air_quality_of(j)->0)->Object_0 =~= j->Object_0);
}

/// A document of a `Condition`, decoded and written again, is the same
/// document.
pub proof fn lemma_condition_rewritten_is_the_same(j: Json)
    requires
        condition_of(j) is Some,
    ensures
        condition_json(condition_of(j)->0) == j,
{
    lemma_condition_keys_differ();
    assert(condition_json(condition_of(j)->0)->Object_0 =~= j->Object_0);
}

/// A document of a `Location`, decoded and written again, is the same
/// document.
pub proof fn lemma_location_rewritten_is_the_same(j: Json)
    requires
        location_of(j) is Some,
    ensures
        location_json(location_of(j)->0) == j,
{
    lemma_location_keys_differ();
    assert(location_json(location_of(j)->0)->Object_0 =~= j->Object_0);
}

/// A document of a `Current`, decoded and written again, is the same
/// document.
pub proof fn lemma_current_rewritten_is_the_same(j: Json)
    requires
        current_of(j) is Some,
    ensures
        current_json(current_of(j)->0) == j,
{
    lemma_current_keys_differ();
    lemma_condition_rewritten_is_the_same(j->Object_0["condition"@]);
    lemma_air_quality_rewritten_is_the_same(j->Object_0["air_quality"@]);
    assert(current_json(current_of(j)->0)->Object_0 =~= j->Object_0);
}

/// A document of a `Day`, decoded and written again, is the same
/// document.
pub proof fn lemma_day_rewritten_is_the_same(j: Json)
    requires
        day_of(j) is Some,
    ensures
        day_json(day_of(j)->0) == j,
{
    lemma_day_keys_differ();
    lemma_condition_rewritten_is_the_same(j->Object_0["condition"@]);
    lemma_air_quality_rewritten_is_the_same(j->Object_0["air_quality"@]);
    assert(day_json(day_of(j)->0)->Object_0 =~= j->Object_0);
}

/// A document of an `Astro`, decoded and written again, is the same
/// document.
pub proof fn lemma_astro_rewritten_is_the_same(j: Json)
    requires
        astro_of(j) is Some,
    ensures
        astro_json(astro_of(j)->0) == j,
{
    lemma_astro_keys_differ();
    assert(astro_json(astro_of(j)->0)->Object_0 =~= j->Object_0);
}

/// A document of a `Hour`, decoded and written again, is the same
/// document.
pub proof fn lemma_hour_rewritten_is_the_same(j: Json)
    requires
        hour_of(j) is Some,
    ensures
        hour_json(hour_of(j)->0) == j,
{
    lemma_hour_keys_differ();
    lemma_condition_rewritten_is_the_same(j->Object_0["condition"@]);
    lemma_air_quality_rewritten_is_the_same(j->Object_0["air_quality"@]);
    assert(hour_json(hour_of(j)->0)->Object_0 =~= j->Object_0);
}

/// Documents of `Hour` entries, decoded and written again, are the
/// same documents in the same order.
pub proof fn lemma_hours_rewritten_are_the_same(items: Seq<Json>)
    requires
        hours_of(items) is Some,
    ensures
        hours_json(hours_of(items)->0) == items,
{
    assert forall|i: int| 0 <= i < items.len() implies
        #[trigger] hours_json(hours_of(items)->0)[i] == items[i] by {
        assert(hour_of(items[i]) is Some);
        lemma_hour_rewritten_is_the_same(items[i]);
    }
    assert(hours_json(hours_of(items)->0) =~= items);
}

/// A document of a `ForecastDay`, decoded and written again, is the same
/// document.
pub proof fn lemma_forecast_day_rewritten_is_the_same(j: Json)
    requires
        forecast_day_of(j) is Some,
    ensures
        forecast_day_json(forecast_day_of(j)->0) == j,
{
    lemma_forecast_day_keys_differ();
    lemma_day_rewritten_is_the_same(j->Object_0["day"@]);
    lemma_astro_rewritten_is_the_same(j->Object_0["astro"@]);
    lemma_hours_rewritten_are_the_same(j->Object_0["hour"@]->Array_0);
    assert(forecast_day_json(forecast_day_of(j)->0)->Object_0 =~= j->Object_0);
}

/// Documents of `ForecastDay` entries, decoded and written again, are the
/// same documents in the same order.
pub proof fn lemma_forecast_days_rewritten_are_the_same(items: Seq<Json>)
    requires
        forecast_days_of(items) is Some,
    ensures
        forecast_days_json(forecast_days_of(items)->0) == items,
{
    assert forall|i: int| 0 <= i < items.len() implies
        #[trigger] forecast_days_json(forecast_days_of(items)->0)[i] == items[i] by {
        assert(forecast_day_of(items[i]) is Some);
        lemma_forecast_day_rewritten_is_the_same(items[i]);
    }
    assert(forecast_days_json(forecast_days_of(items)->0) =~= items);
}

/// A document of a `Forecast`, decoded and written again, is the same
/// document.
pub proof fn lemma_forecast_rewritten_is_the_same(j: Json)
    requires
        forecast_of(j) is Some,
    ensures
        forecast_json(forecast_of(j)->0) == j,
{
    lemma_forecast_keys_differ();
    lemma_forecast_days_rewritten_are_the_same(j->Object_0["forecastday"@]->Array_0);
    assert(forecast_json(forecast_of(j)->0)->Object_0 =~= j->Object_0);
}

/// A document of a `WeatherData`, decoded and written again, is the same
/// document.
pub proof fn lemma_weather_rewritten_is_the_same(j: Json)
    requires
        weather_of(j) is Some,
    ensures
        weather_json(weather_of(j)->0) == j,
{
    lemma_weather_keys_differ();
    lemma_location_rewritten_is_the_same(j->Object_0["location"@]);
    lemma_current_rewritten_is_the_same(j->Object_0["current"@]);
    lemma_forecast_rewritten_is_the_same(j->Object_0["forecast"@]);
    assert(weather_json(weather_of(j)->0)->Object_0 =~= j->Object_0);
}

/// The two indices of the air quality are written under their hyphenated
/// keys.
pub proof fn lemma_indices_keep_their_hyphenated_keys(x: AirQualityView)
    ensures
        json_member(air_quality_json(x), "us-epa-index"@) == Some(
            Json::Number(JsonNumber::Integer(x.us_epa_index as int)),
        ),
        json_member(air_quality_json(x), "gb-defra-index"@) == Some(
            Json::Number(JsonNumber::Integer(x.gb_defra_index as int)),
        ),
{
    lemma_air_quality_keys_differ();
}

} // verus!
