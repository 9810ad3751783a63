use seer::geo::ingest::{ingest_reply, IngestAck, IngestError};
use seer::geo::query::latest::{after_row, latest_location_reply, LatestLocationError, LatestStep};
use seer::geo::query::range::{locations_in_range_reply, LocationsInRangeError};
use seer::geo::util::{coords_readable, extract_coords, Coords, GeoFeature, GeoGeometry, GeoShape};
use seer::weather::conditions::{after_conditions_query, WeatherError};
use seer::weather::pollution::{after_pollution_query, first_reading, PollutionError};
use seer::weather::{after_cache_read, after_location, build_url, location_query, Report, WeatherStep};

fn point(c: Vec<f64>) -> GeoGeometry<f64> {
    GeoGeometry::Point(c)
}

#[test]
fn coords_come_from_points() {
    let c = extract_coords(GeoShape::Geometry(point(vec![13.4, 52.5]))).unwrap();
    assert_eq!(c, Coords { longitude: 13.4, latitude: 52.5 });
    let f = GeoShape::Feature(GeoFeature { geometry: Some(point(vec![1.0, 2.0, 30.0])) });
    assert_eq!(extract_coords(f), Some(Coords { longitude: 1.0, latitude: 2.0 }));
    let fc = GeoShape::FeatureCollection(vec![
        GeoFeature { geometry: Some(point(vec![5.0, 6.0])) },
        GeoFeature { geometry: Some(point(vec![7.0, 8.0])) },
    ]);
    assert_eq!(extract_coords(fc), Some(Coords { longitude: 5.0, latitude: 6.0 }));
}

#[test]
fn other_shapes_give_no_coords() {
    assert_eq!(extract_coords(GeoShape::<f64>::Geometry(GeoGeometry::Other)), None);
    assert_eq!(extract_coords(GeoShape::<f64>::Feature(GeoFeature { geometry: None })), None);
    assert_eq!(extract_coords(GeoShape::<f64>::FeatureCollection(vec![])), None);
    let fc = GeoShape::FeatureCollection(vec![
        GeoFeature { geometry: Some(GeoGeometry::Other) },
        GeoFeature { geometry: Some(point(vec![7.0, 8.0])) },
    ]);
    assert_eq!(extract_coords(fc), None);
}

#[test]
fn short_points_are_not_readable() {
    assert!(!coords_readable(&GeoShape::Geometry(point(vec![1.0]))));
    assert!(coords_readable(&GeoShape::Geometry(point(vec![1.0, 2.0]))));
    assert!(coords_readable(&GeoShape::<f64>::Geometry(GeoGeometry::Other)));
}

#[test]
fn ingest_replies() {
    assert!(matches!(ingest_reply(Ok(())), IngestAck::Stored));
    match ingest_reply(Err(IngestError::Sqlx("down".to_string()))) {
        IngestAck::Failed(r) => {
            assert_eq!(r.status, 500);
            assert_eq!(r.message, "failed to ingest batch");
        }
        IngestAck::Stored => panic!("a failed batch is not stored"),
    }
}

#[test]
fn latest_location_steps_and_replies() {
    assert!(matches!(after_row::<u8>(Ok(None)), LatestStep::Done(Ok(None))));
    match after_row::<u8>(Ok(Some("{}".to_string()))) {
        LatestStep::Parse(t) => assert_eq!(t, "{}"),
        LatestStep::Done(_) => panic!("a row is parsed"),
    }
    assert!(matches!(
        after_row::<u8>(Err(LatestLocationError::Sqlx("x".to_string()))),
        LatestStep::Done(Err(LatestLocationError::Sqlx(_)))
    ));
    let r = latest_location_reply::<u8>(Ok(None));
    assert_eq!((r.status, r.message.as_str(), r.data), (200, "no_data", None));
    let r = latest_location_reply(Ok(Some(9u8)));
    assert_eq!((r.status, r.message.as_str(), r.data), (200, "success", Some(9)));
    let r = latest_location_reply::<u8>(Err(LatestLocationError::Serde("bad".to_string())));
    assert_eq!((r.status, r.message.as_str(), r.data), (500, "failed to query latest location", None));
}

#[test]
fn range_replies() {
    let r = locations_in_range_reply(Ok(vec![1u8, 2]));
    assert_eq!((r.status, r.data), (200, Some(vec![1, 2])));
    let r = locations_in_range_reply::<u8>(Err(LocationsInRangeError::Sqlx("x".to_string())));
    assert_eq!((r.status, r.message.as_str()), (500, "location range query failed"));
}

#[test]
fn weather_url_and_query() {
    assert_eq!(build_url("weather"), "https://api.openweathermap.org/data/2.5//weather?units=metric");
    let q = location_query("KEY", "52.5".to_string(), "13.4".to_string());
    assert_eq!(
        q,
        vec![
            ("appid".to_string(), "KEY".to_string()),
            ("lat".to_string(), "52.5".to_string()),
            ("lon".to_string(), "13.4".to_string())
        ]
    );
}

#[test]
fn weather_steps() {
    match after_cache_read::<f64, u8, ()>(Ok(Some(3))) {
        WeatherStep::Answer(r) => assert_eq!((r.status, r.data), (200, Some(3))),
        _ => panic!("cached data answers"),
    }
    assert!(matches!(after_cache_read::<f64, u8, ()>(Err(())), WeatherStep::LookUpLocation));
    assert!(matches!(after_cache_read::<f64, u8, ()>(Ok(None)), WeatherStep::LookUpLocation));

    let answer = |s: WeatherStep<f64, u8>| match s {
        WeatherStep::Answer(r) => (r.status, r.message),
        _ => panic!("expected an answer"),
    };
    assert_eq!(answer(after_location::<f64, u8, ()>(Report::Conditions, Err(()))), (500, "could not get latest location".to_string()));
    assert_eq!(
        answer(after_location::<f64, u8, ()>(Report::Conditions, Ok(None))),
        (500, "no location available for weather query".to_string())
    );
    assert_eq!(
        answer(after_location::<f64, u8, ()>(Report::Pollution, Ok(None))),
        (500, "no location available for pollution query".to_string())
    );
    assert_eq!(
        answer(after_location::<f64, u8, ()>(Report::Conditions, Ok(Some(GeoShape::Geometry(GeoGeometry::Other))))),
        (500, "unable to extract coords from the latest location".to_string())
    );
    match after_location::<f64, u8, ()>(Report::Pollution, Ok(Some(GeoShape::Geometry(point(vec![1.5, 2.5]))))) {
        WeatherStep::Query(c) => assert_eq!(c, Coords { longitude: 1.5, latitude: 2.5 }),
        _ => panic!("a position is queried"),
    }
}

#[test]
fn weather_replies() {
    let r = after_conditions_query(Ok(7u8));
    assert_eq!((r.status, r.message.as_str(), r.data), (200, "success", Some(7)));
    let r = after_conditions_query::<u8>(Err(WeatherError::Reqwest("x".to_string())));
    assert_eq!((r.status, r.message.as_str(), r.data), (500, "failed to query weather", None));
    let r = after_pollution_query(Ok(Some(1u8)));
    assert_eq!((r.status, r.data), (200, Some(1)));
    let r = after_pollution_query::<u8>(Ok(None));
    assert_eq!((r.status, r.message.as_str()), (404, "pollution data not found"));
    let r = after_pollution_query::<u8>(Err(PollutionError::Reqwest("x".to_string())));
    assert_eq!((r.status, r.message.as_str()), (500, "failed to fetch current pollution"));
}

#[test]
fn first_pollution_reading() {
    assert_eq!(first_reading(vec![3, 4]), Some(3));
    assert_eq!(first_reading::<u8>(vec![]), None);
}
