//! The part of a GeoJSON document the service reads, and how a position is
//! read out of it.

use vstd::prelude::*;

verus! {

/// A position: longitude and latitude, in the number type of the document.
#[derive(Debug, Clone, Copy, PartialEq)]
pub struct Coords<P> {
    pub longitude: P,
    pub latitude: P,
}

/// A GeoJSON document, as far as the service reads it: a geometry, a
/// feature, or a collection of features.
pub enum GeoShape<P> {
    Geometry(GeoGeometry<P>),
    Feature(GeoFeature<P>),
    FeatureCollection(Vec<GeoFeature<P>>),
}

/// A GeoJSON feature; only its geometry is read.
pub struct GeoFeature<P> {
    pub geometry: Option<GeoGeometry<P>>,
}

/// A GeoJSON geometry: a point with its coordinates, or any other kind.
pub enum GeoGeometry<P> {
    Point(Vec<P>),
    Other,
}

/// The coordinates of a geometry, if it is a point.
pub open spec fn point_of_geometry<P>(g: GeoGeometry<P>) -> Option<Seq<P>> {
    match g {
        GeoGeometry::Point(c) => Some(c@),
        GeoGeometry::Other => None,
    }
}

/// The coordinates of a feature's geometry, if it has one and it is a point.
pub open spec fn point_of_feature<P>(f: GeoFeature<P>) -> Option<Seq<P>> {
    match f.geometry {
        Some(g) => point_of_geometry(g),
        None => None,
    }
}

/// The point that position extraction reaches in a document: the geometry
/// itself, the geometry of a feature, or that of the first feature of a
/// collection; `None` when what it reaches is missing or not a point.
pub open spec fn reached_point<P>(s: GeoShape<P>) -> Option<Seq<P>> {
    match s {
        GeoShape::Geometry(g) => point_of_geometry(g),
        GeoShape::Feature(f) => point_of_feature(f),
        GeoShape::FeatureCollection(fs) => if fs@.len() == 0 {
            None
        } else {
            point_of_feature(fs@[0])
        },
    }
}

/// Whether a position can be read out of the document: either extraction
/// reaches no point, or the point it reaches has at least two coordinates.
pub open spec fn coords_readable_spec<P>(s: GeoShape<P>) -> bool {
    reached_point(s) matches Some(c) ==> c.len() >= 2
}

/// The position that extraction gives: the first two coordinates of the
/// point it reaches, as longitude and latitude.
pub open spec fn extracted<P>(s: GeoShape<P>) -> Option<Coords<P>> {
    match reached_point(s) {
        Some(c) => Some(Coords { longitude: c[0], latitude: c[1] }),
        None => None,
    }
}

/// Where the position comes from: a point gives its first coordinate as
/// longitude and its second as latitude; a geometry of another kind, a
/// feature without geometry and an empty collection give none; a feature
/// gives what its geometry gives, and a collection what its first feature
/// gives.
pub proof fn law_position_of_a_document<P>(v: Vec<P>, f: GeoFeature<P>, fs: Vec<GeoFeature<P>>)
    ensures
        v@.len() >= 2 ==> extracted(GeoShape::Geometry(GeoGeometry::Point(v))) == Some(
            Coords { longitude: v@[0], latitude: v@[1] },
        ),
        extracted(GeoShape::<P>::Geometry(GeoGeometry::Other)) is None,
        extracted(GeoShape::<P>::Feature(GeoFeature { geometry: None })) is None,
        fs@.len() == 0 ==> extracted(GeoShape::FeatureCollection(fs)) is None,
        fs@.len() > 0 ==> extracted(GeoShape::FeatureCollection(fs)) == extracted(
            GeoShape::Feature(fs@[0]),
        ),
        f.geometry matches Some(g) ==> extracted(GeoShape::Feature(f)) == extracted(
            GeoShape::Geometry(g),
        ),
{
}

fn point_coords<P: Copy>(g: GeoGeometry<P>) -> (r: Option<Coords<P>>)
    requires
        point_of_geometry(g) matches Some(c) ==> c.len() >= 2,
    ensures
        r == match point_of_geometry(g) {
            Some(c) => Some(Coords { longitude: c[0], latitude: c[1] }),
            None => None,
        },
{
    match g {
        GeoGeometry::Point(c) => Some(Coords { longitude: c[0], latitude: c[1] }),
        GeoGeometry::Other => None,
    }
}

/// Reads a position out of a GeoJSON document: a feature is read through its
/// geometry, a collection through its first feature, and a point gives its
/// first coordinate as longitude and its second as latitude. Anything else
/// gives `None`.
pub fn extract_coords<P: Copy>(geo: GeoShape<P>) -> (r: Option<Coords<P>>)
    requires
        coords_readable_spec(geo),
    ensures
        r == extracted(geo),
{
    match geo {
        GeoShape::Geometry(g) => point_coords(g),
        GeoShape::Feature(f) => match f.geometry {
            Some(g) => point_coords(g),
            None => None,
        },
        GeoShape::FeatureCollection(fs) => {
            let mut fs = fs;
            if fs.len() == 0 {
                None
            } else {
                let f = fs.remove(0);
                match f.geometry {
                    Some(g) => point_coords(g),
                    None => None,
                }
            }
        },
    }
}

fn geometry_readable<P>(g: &GeoGeometry<P>) -> (r: bool)
    ensures
        r == (point_of_geometry(*g) matches Some(c) ==> c.len() >= 2),
{
    match g {
        GeoGeometry::Point(c) => c.len() >= 2,
        GeoGeometry::Other => true,
    }
}

/// Whether `extract_coords` can read the document (a point it reaches must
/// hold at least two coordinates).
pub fn coords_readable<P>(geo: &GeoShape<P>) -> (r: bool)
    ensures
        r == coords_readable_spec(*geo),
{
    match geo {
        GeoShape::Geometry(g) => geometry_readable(g),
        GeoShape::Feature(f) => match &f.geometry {
            Some(g) => geometry_readable(g),
            None => true,
        },
        GeoShape::FeatureCollection(fs) => {
            if fs.len() == 0 {
                true
            } else {
                match &fs[0].geometry {
                    Some(g) => geometry_readable(g),
                    None => true,
                }
            }
        },
    }
}

/// Wrapping a geometry in a feature, or a feature in a collection that it
/// leads, does not change the position read out of a document.
pub proof fn law_wrapping_keeps_the_position<P>(g: GeoGeometry<P>, rest: Seq<GeoFeature<P>>, fs: Vec<GeoFeature<P>>)
    requires
        fs@ == seq![GeoFeature { geometry: Some(g) }] + rest,
    ensures
        extracted(GeoShape::Feature(GeoFeature { geometry: Some(g) })) == extracted(
            GeoShape::Geometry(g),
        ),
        extracted(GeoShape::FeatureCollection(fs)) == extracted(GeoShape::Geometry(g)),
{
    assert(fs@[0] == GeoFeature { geometry: Some(g) });
}

} // verus!
