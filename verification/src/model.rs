//! The entities of a forecast response, each with its mathematical view.
//!
//! Every entity is a plain record that is filled once from a response and
//! never changed. Measured quantities are kept as the JSON numbers of the
//! response, so that nothing is lost between the response and the report;
//! counts, codes, flags and indices are integers.

use crate::json::{copy_number, number_view, JsonNumber};
use serde_json::Number;
use vstd::prelude::*;

verus! {

/// A measured quantity, kept as the JSON number that the response gave.
#[derive(Debug, PartialEq, Eq)]
pub struct Quantity {
    pub number: Number,
}

impl View for Quantity {
    type V = JsonNumber;

    open spec fn view(&self) -> JsonNumber {
        number_view(self.number)
    }
}

impl Clone for Quantity {
    fn clone(&self) -> (r: Self)
        ensures
            r@ == self@,
    {
        Quantity { number: copy_number(&self.number) }
    }
}

/// Pollutant concentrations and the two national indices.
#[derive(Debug, Clone, PartialEq, Eq)]
pub struct AirQuality {
    pub co: Quantity,
    pub no2: Quantity,
    pub o3: Quantity,
    pub so2: Quantity,
    pub pm2_5: Quantity,
    pub pm10: Quantity,
    pub us_epa_index: i32,
    pub gb_defra_index: i32,
}

/// What an `AirQuality` holds.
pub ghost struct AirQualityView {
    pub co: JsonNumber,
    pub no2: JsonNumber,
    pub o3: JsonNumber,
    pub so2: JsonNumber,
    pub pm2_5: JsonNumber,
    pub pm10: JsonNumber,
    pub us_epa_index: i32,
    pub gb_defra_index: i32,
}

impl View for AirQuality {
    type V = AirQualityView;

    open spec fn view(&self) -> AirQualityView {
        AirQualityView {
            co: self.co@,
            no2: self.no2@,
            o3: self.o3@,
            so2: self.so2@,
            pm2_5: self.pm2_5@,
            pm10: self.pm10@,
            us_epa_index: self.us_epa_index,
            gb_defra_index: self.gb_defra_index,
        }
    }
}

/// A weather condition: its text, its icon and its code.
#[derive(Debug, Clone, PartialEq, Eq)]
pub struct Condition {
    pub text: String,
    pub icon: String,
    pub code: i32,
}

/// What a `Condition` holds.
pub ghost struct ConditionView {
    pub text: Seq<char>,
    pub icon: Seq<char>,
    pub code: i32,
}

impl View for Condition {
    type V = ConditionView;

    open spec fn view(&self) -> ConditionView {
        ConditionView {
            text: self.text@,
            icon: self.icon@,
            code: self.code,
        }
    }
}

/// The place that the query resolved to.
#[derive(Debug, Clone, PartialEq, Eq)]
pub struct Location {
    pub name: String,
    pub region: String,
    pub country: String,
    pub lat: Quantity,
    pub lon: Quantity,
    pub tz_id: String,
    pub localtime_epoch: i64,
    pub localtime: String,
}

/// What a `Location` holds.
pub ghost struct LocationView {
    pub name: Seq<char>,
    pub region: Seq<char>,
    pub country: Seq<char>,
    pub lat: JsonNumber,
    pub lon: JsonNumber,
    pub tz_id: Seq<char>,
    pub localtime_epoch: i64,
    pub localtime: Seq<char>,
}

impl View for Location {
    type V = LocationView;

    open spec fn view(&self) -> LocationView {
        LocationView {
            name: self.name@,
            region: self.region@,
            country: self.country@,
            lat: self.lat@,
            lon: self.lon@,
            tz_id: self.tz_id@,
            localtime_epoch: self.localtime_epoch,
            localtime: self.localtime@,
        }
    }
}

/// The observation of the present moment.
#[derive(Debug, Clone, PartialEq, Eq)]
pub struct Current {
    pub last_updated_epoch: i64,
    pub last_updated: String,
    pub temp_c: Quantity,
    pub temp_f: Quantity,
    pub is_day: i32,
    pub condition: Condition,
    pub wind_mph: Quantity,
    pub wind_kph: Quantity,
    pub wind_degree: i32,
    pub wind_dir: String,
    pub pressure_mb: Quantity,
    pub pressure_in: Quantity,
    pub precip_mm: Quantity,
    pub precip_in: Quantity,
    pub humidity: i32,
    pub cloud: i32,
    pub feelslike_c: Quantity,
    pub feelslike_f: Quantity,
    pub windchill_c: Quantity,
    pub windchill_f: Quantity,
    pub heatindex_c: Quantity,
    pub heatindex_f: Quantity,
    pub dewpoint_c: Quantity,
    pub dewpoint_f: Quantity,
    pub vis_km: Quantity,
    pub vis_miles: Quantity,
    pub uv: Quantity,
    pub gust_mph: Quantity,
    pub gust_kph: Quantity,
    pub air_quality: AirQuality,
    pub short_rad: Quantity,
    pub diff_rad: Quantity,
    pub dni: Quantity,
    pub gti: Quantity,
}

/// What a `Current` holds.
pub ghost struct CurrentView {
    pub last_updated_epoch: i64,
    pub last_updated: Seq<char>,
    pub temp_c: JsonNumber,
    pub temp_f: JsonNumber,
    pub is_day: i32,
    pub condition: ConditionView,
    pub wind_mph: JsonNumber,
    pub wind_kph: JsonNumber,
    pub wind_degree: i32,
    pub wind_dir: Seq<char>,
    pub pressure_mb: JsonNumber,
    pub pressure_in: JsonNumber,
    pub precip_mm: JsonNumber,
    pub precip_in: JsonNumber,
    pub humidity: i32,
    pub cloud: i32,
    pub feelslike_c: JsonNumber,
    pub feelslike_f: JsonNumber,
    pub windchill_c: JsonNumber,
    pub windchill_f: JsonNumber,
    pub heatindex_c: JsonNumber,
    pub heatindex_f: JsonNumber,
    pub dewpoint_c: JsonNumber,
    pub dewpoint_f: JsonNumber,
    pub vis_km: JsonNumber,
    pub vis_miles: JsonNumber,
    pub uv: JsonNumber,
    pub gust_mph: JsonNumber,
    pub gust_kph: JsonNumber,
    pub air_quality: AirQualityView,
    pub short_rad: JsonNumber,
    pub diff_rad: JsonNumber,
    pub dni: JsonNumber,
    pub gti: JsonNumber,
}

impl View for Current {
    type V = CurrentView;

    open spec fn view(&self) -> CurrentView {
        CurrentView {
            last_updated_epoch: self.last_updated_epoch,
            last_updated: self.last_updated@,
            temp_c: self.temp_c@,
            temp_f: self.temp_f@,
            is_day: self.is_day,
            condition: self.condition@,
            wind_mph: self.wind_mph@,
            wind_kph: self.wind_kph@,
            wind_degree: self.wind_degree,
            wind_dir: self.wind_dir@,
            pressure_mb: self.pressure_mb@,
            pressure_in: self.pressure_in@,
            precip_mm: self.precip_mm@,
            precip_in: self.precip_in@,
            humidity: self.humidity,
            cloud: self.cloud,
            feelslike_c: self.feelslike_c@,
            feelslike_f: self.feelslike_f@,
            windchill_c: self.windchill_c@,
            windchill_f: self.windchill_f@,
            heatindex_c: self.heatindex_c@,
            heatindex_f: self.heatindex_f@,
            dewpoint_c: self.dewpoint_c@,
            dewpoint_f: self.dewpoint_f@,
            vis_km: self.vis_km@,
            vis_miles: self.vis_miles@,
            uv: self.uv@,
            gust_mph: self.gust_mph@,
            gust_kph: self.gust_kph@,
            air_quality: self.air_quality@,
            short_rad: self.short_rad@,
            diff_rad: self.diff_rad@,
            dni: self.dni@,
            gti: self.gti@,
        }
    }
}

/// The summary of one day.
#[derive(Debug, Clone, PartialEq, Eq)]
pub struct Day {
    pub maxtemp_c: Quantity,
    pub maxtemp_f: Quantity,
    pub mintemp_c: Quantity,
    pub mintemp_f: Quantity,
    pub avgtemp_c: Quantity,
    pub avgtemp_f: Quantity,
    pub maxwind_mph: Quantity,
    pub maxwind_kph: Quantity,
    pub totalprecip_mm: Quantity,
    pub totalprecip_in: Quantity,
    pub totalsnow_cm: Quantity,
    pub avgvis_km: Quantity,
    pub avgvis_miles: Quantity,
    pub avghumidity: u32,
    pub daily_will_it_rain: i32,
    pub daily_chance_of_rain: i32,
    pub daily_will_it_snow: i32,
    pub daily_chance_of_snow: i32,
    pub condition: Condition,
    pub uv: Quantity,
    pub air_quality: AirQuality,
}

/// What a `Day` holds.
pub ghost struct DayView {
    pub maxtemp_c: JsonNumber,
    pub maxtemp_f: JsonNumber,
    pub mintemp_c: JsonNumber,
    pub mintemp_f: JsonNumber,
    pub avgtemp_c: JsonNumber,
    pub avgtemp_f: JsonNumber,
    pub maxwind_mph: JsonNumber,
    pub maxwind_kph: JsonNumber,
    pub totalprecip_mm: JsonNumber,
    pub totalprecip_in: JsonNumber,
    pub totalsnow_cm: JsonNumber,
    pub avgvis_km: JsonNumber,
    pub avgvis_miles: JsonNumber,
    pub avghumidity: u32,
    pub daily_will_it_rain: i32,
    pub daily_chance_of_rain: i32,
    pub daily_will_it_snow: i32,
    pub daily_chance_of_snow: i32,
    pub condition: ConditionView,
    pub uv: JsonNumber,
    pub air_quality: AirQualityView,
}

impl View for Day {
    type V = DayView;

    open spec fn view(&self) -> DayView {
        DayView {
            maxtemp_c: self.maxtemp_c@,
            maxtemp_f: self.maxtemp_f@,
            mintemp_c: self.mintemp_c@,
            mintemp_f: self.mintemp_f@,
            avgtemp_c: self.avgtemp_c@,
            avgtemp_f: self.avgtemp_f@,
            maxwind_mph: self.maxwind_mph@,
            maxwind_kph: self.maxwind_kph@,
            totalprecip_mm: self.totalprecip_mm@,
            totalprecip_in: self.totalprecip_in@,
            totalsnow_cm: self.totalsnow_cm@,
            avgvis_km: self.avgvis_km@,
            avgvis_miles: self.avgvis_miles@,
            avghumidity: self.avghumidity,
            daily_will_it_rain: self.daily_will_it_rain,
            daily_chance_of_rain: self.daily_chance_of_rain,
            daily_will_it_snow: self.daily_will_it_snow,
            daily_chance_of_snow: self.daily_chance_of_snow,
            condition: self.condition@,
            uv: self.uv@,
            air_quality: self.air_quality@,
        }
    }
}

/// Sun and moon of one day.
#[derive(Debug, Clone, PartialEq, Eq)]
pub struct Astro {
    pub sunrise: String,
    pub sunset: String,
    pub moonrise: String,
    pub moonset: String,
    pub moon_phase: String,
    pub moon_illumination: u32,
    pub is_moon_up: i32,
    pub is_sun_up: i32,
}

/// What an `Astro` holds.
pub ghost struct AstroView {
    pub sunrise: Seq<char>,
    pub sunset: Seq<char>,
    pub moonrise: Seq<char>,
    pub moonset: Seq<char>,
    pub moon_phase: Seq<char>,
    pub moon_illumination: u32,
    pub is_moon_up: i32,
    pub is_sun_up: i32,
}

impl View for Astro {
    type V = AstroView;

    open spec fn view(&self) -> AstroView {
        AstroView {
            sunrise: self.sunrise@,
            sunset: self.sunset@,
            moonrise: self.moonrise@,
            moonset: self.moonset@,
            moon_phase: self.moon_phase@,
            moon_illumination: self.moon_illumination,
            is_moon_up: self.is_moon_up,
            is_sun_up: self.is_sun_up,
        }
    }
}

/// The observation of one hour.
#[derive(Debug, Clone, PartialEq, Eq)]
pub struct Hour {
    pub time_epoch: i64,
    pub time: String,
    pub temp_c: Quantity,
    pub temp_f: Quantity,
    pub is_day: i32,
    pub condition: Condition,
    pub wind_mph: Quantity,
    pub wind_kph: Quantity,
    pub wind_degree: i32,
    pub wind_dir: String,
    pub pressure_mb: Quantity,
    pub pressure_in: Quantity,
    pub precip_mm: Quantity,
    pub precip_in: Quantity,
    pub snow_cm: Quantity,
    pub humidity: i32,
    pub cloud: i32,
    pub feelslike_c: Quantity,
    pub feelslike_f: Quantity,
    pub windchill_c: Quantity,
    pub windchill_f: Quantity,
    pub heatindex_c: Quantity,
    pub heatindex_f: Quantity,
    pub dewpoint_c: Quantity,
    pub dewpoint_f: Quantity,
    pub will_it_rain: i32,
    pub chance_of_rain: i32,
    pub will_it_snow: i32,
    pub chance_of_snow: i32,
    pub vis_km: Quantity,
    pub vis_miles: Quantity,
    pub gust_kph: Quantity,
    pub gust_mph: Quantity,
    pub uv: Quantity,
    pub air_quality: AirQuality,
    pub short_rad: Quantity,
    pub diff_rad: Quantity,
    pub dni: Quantity,
    pub gti: Quantity,
}

/// What a `Hour` holds.
pub ghost struct HourView {
    pub time_epoch: i64,
    pub time: Seq<char>,
    pub temp_c: JsonNumber,
    pub temp_f: JsonNumber,
    pub is_day: i32,
    pub condition: ConditionView,
    pub wind_mph: JsonNumber,
    pub wind_kph: JsonNumber,
    pub wind_degree: i32,
    pub wind_dir: Seq<char>,
    pub pressure_mb: JsonNumber,
    pub pressure_in: JsonNumber,
    pub precip_mm: JsonNumber,
    pub precip_in: JsonNumber,
    pub snow_cm: JsonNumber,
    pub humidity: i32,
    pub cloud: i32,
    pub feelslike_c: JsonNumber,
    pub feelslike_f: JsonNumber,
    pub windchill_c: JsonNumber,
    pub windchill_f: JsonNumber,
    pub heatindex_c: JsonNumber,
    pub heatindex_f: JsonNumber,
    pub dewpoint_c: JsonNumber,
    pub dewpoint_f: JsonNumber,
    pub will_it_rain: i32,
    pub chance_of_rain: i32,
    pub will_it_snow: i32,
    pub chance_of_snow: i32,
    pub vis_km: JsonNumber,
    pub vis_miles: JsonNumber,
    pub gust_kph: JsonNumber,
    pub gust_mph: JsonNumber,
    pub uv: JsonNumber,
    pub air_quality: AirQualityView,
    pub short_rad: JsonNumber,
    pub diff_rad: JsonNumber,
    pub dni: JsonNumber,
    pub gti: JsonNumber,
}

impl View for Hour {
    type V = HourView;

    open spec fn view(&self) -> HourView {
        HourView {
            time_epoch: self.time_epoch,
            time: self.time@,
            temp_c: self.temp_c@,
            temp_f: self.temp_f@,
            is_day: self.is_day,
            condition: self.condition@,
            wind_mph: self.wind_mph@,
            wind_kph: self.wind_kph@,
            wind_degree: self.wind_degree,
            wind_dir: self.wind_dir@,
            pressure_mb: self.pressure_mb@,
            pressure_in: self.pressure_in@,
            precip_mm: self.precip_mm@,
            precip_in: self.precip_in@,
            snow_cm: self.snow_cm@,
            humidity: self.humidity,
            cloud: self.cloud,
            feelslike_c: self.feelslike_c@,
            feelslike_f: self.feelslike_f@,
            windchill_c: self.windchill_c@,
            windchill_f: self.windchill_f@,
            heatindex_c: self.heatindex_c@,
            heatindex_f: self.heatindex_f@,
            dewpoint_c: self.dewpoint_c@,
            dewpoint_f: self.dewpoint_f@,
            will_it_rain: self.will_it_rain,
            chance_of_rain: self.chance_of_rain,
            will_it_snow: self.will_it_snow,
            chance_of_snow: self.chance_of_snow,
            vis_km: self.vis_km@,
            vis_miles: self.vis_miles@,
            gust_kph: self.gust_kph@,
            gust_mph: self.gust_mph@,
            uv: self.uv@,
            air_quality: self.air_quality@,
            short_rad: self.short_rad@,
            diff_rad: self.diff_rad@,
            dni: self.dni@,
            gti: self.gti@,
        }
    }
}

/// The views of a sequence of `Hour`, one by one.
pub open spec fn hour_views(s: Seq<Hour>) -> Seq<HourView> {
    Seq::new(s.len(), |i: int| s[i]@)
}

/// The forecast of one calendar day.
#[derive(Debug, Clone, PartialEq, Eq)]
pub struct ForecastDay {
    pub date: String,
    pub date_epoch: i64,
    pub day: Day,
    pub astro: Astro,
    pub hour: Vec<Hour>,
}

/// What a `ForecastDay` holds.
pub ghost struct ForecastDayView {
    pub date: Seq<char>,
    pub date_epoch: i64,
    pub day: DayView,
    pub astro: AstroView,
    pub hour: Seq<HourView>,
}

impl View for ForecastDay {
    type V = ForecastDayView;

    open spec fn view(&self) -> ForecastDayView {
        ForecastDayView {
            date: self.date@,
            date_epoch: self.date_epoch,
            day: self.day@,
            astro: self.astro@,
            hour: hour_views(self.hour@),
        }
    }
}

/// The views of a sequence of `ForecastDay`, one by one.
pub open spec fn forecast_day_views(s: Seq<ForecastDay>) -> Seq<ForecastDayView> {
    Seq::new(s.len(), |i: int| s[i]@)
}

/// The forecast, day by day, in the order of the response.
#[derive(Debug, Clone, PartialEq, Eq)]
pub struct Forecast {
    pub forecastday: Vec<ForecastDay>,
}

/// What a `Forecast` holds.
pub ghost struct ForecastView {
    pub forecastday: Seq<ForecastDayView>,
}

impl View for Forecast {
    type V = ForecastView;

    open spec fn view(&self) -> ForecastView {
        ForecastView {
            forecastday: forecast_day_views(self.forecastday@),
        }
    }
}

/// A whole response: the place, the present, and the days to come.
#[derive(Debug, Clone, PartialEq, Eq)]
pub struct WeatherData {
    pub location: Location,
    pub current: Current,
    pub forecast: Forecast,
}

/// What a `WeatherData` holds.
pub ghost struct WeatherDataView {
    pub location: LocationView,
    pub current: CurrentView,
    pub forecast: ForecastView,
}

impl View for WeatherData {
    type V = WeatherDataView;

    open spec fn view(&self) -> WeatherDataView {
        WeatherDataView {
            location: self.location@,
            current: self.current@,
            forecast: self.forecast@,
        }
    }
}

} // verus!
