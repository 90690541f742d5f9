use sentinel2_indices::registry::Band::{B02, B03, B04, B05, B07, B08, B09, B11, B12};
use sentinel2_indices::registry::{same_text, Index, IndexError};

#[test]
fn every_name_gives_its_index() {
    let names = [
        ("evi", Index::Evi),
        ("ndvi", Index::Ndvi),
        ("gndvi", Index::Gndvi),
        ("msi", Index::Msi),
        ("ndwi", Index::Ndwi),
        ("ndbi", Index::Ndbi),
        ("ndmi", Index::Ndmi),
        ("atsavi", Index::Atsavi),
        ("afri1600", Index::Afri1600),
        ("afri2100", Index::Afri2100),
        ("ari", Index::Ari),
        ("avi", Index::Avi),
        ("arvi2", Index::Arvi2),
        ("bri", Index::Bri),
        ("chlgreen", Index::Chlgreen),
        ("cigreen", Index::Cigreen),
        ("cirededge", Index::Cirededge),
        ("chlrededge", Index::Chlrededge),
    ];
    for (name, index) in names {
        assert_eq!(Index::from_name(name), Ok(index));
        assert_eq!(index.name(), name);
    }
}

#[test]
fn unknown_name_is_refused() {
    assert_eq!(Index::from_name("nope"), Err(IndexError::UnknownIndex));
    assert_eq!(Index::from_name(""), Err(IndexError::UnknownIndex));
    assert_eq!(Index::from_name("NDVI"), Err(IndexError::UnknownIndex));
    assert_eq!(Index::from_name("ndvi "), Err(IndexError::UnknownIndex));
    assert_eq!(Index::from_name("ndv"), Err(IndexError::UnknownIndex));
    assert_eq!(Index::from_name("afri1601"), Err(IndexError::UnknownIndex));
}

#[test]
fn bands_stand_in_the_order_of_the_formula() {
    assert_eq!(Index::Evi.required_bands(), vec![B02, B04, B08]);
    assert_eq!(Index::Ndvi.required_bands(), vec![B04, B08]);
    assert_eq!(Index::Gndvi.required_bands(), vec![B03, B08]);
    assert_eq!(Index::Msi.required_bands(), vec![B08, B11]);
    assert_eq!(Index::Ndwi.required_bands(), vec![B03, B11]);
    assert_eq!(Index::Ndbi.required_bands(), vec![B08, B11]);
    assert_eq!(Index::Ndmi.required_bands(), vec![B08, B09]);
    assert_eq!(Index::Atsavi.required_bands(), vec![B05, B09]);
    assert_eq!(Index::Afri1600.required_bands(), vec![B09, B11]);
    assert_eq!(Index::Afri2100.required_bands(), vec![B09, B12]);
    assert_eq!(Index::Ari.required_bands(), vec![B03, B05]);
    assert_eq!(Index::Avi.required_bands(), vec![B04, B09]);
    assert_eq!(Index::Arvi2.required_bands(), vec![B05, B09]);
    assert_eq!(Index::Bri.required_bands(), vec![B03, B05, B09]);
    assert_eq!(Index::Chlgreen.required_bands(), vec![B03, B07]);
    assert_eq!(Index::Cigreen.required_bands(), vec![B03, B09]);
    assert_eq!(Index::Cirededge.required_bands(), vec![B05, B09]);
    assert_eq!(Index::Chlrededge.required_bands(), vec![B05, B07]);
}

#[test]
fn band_identifiers() {
    let all = [B02, B03, B04, B05, B07, B08, B09, B11, B12];
    let ids = ["B02", "B03", "B04", "B05", "B07", "B08", "B09", "B11", "B12"];
    for (band, id) in all.iter().zip(ids) {
        assert_eq!(band.identifier(), id);
    }
}

#[test]
fn catalog_holds_every_index_once() {
    let all = Index::catalog();
    assert_eq!(all.len(), 18);
    for (i, a) in all.iter().enumerate() {
        for b in &all[i + 1..] {
            assert_ne!(a, b);
            assert_ne!(a.name(), b.name());
        }
        assert_eq!(Index::from_name(a.name()), Ok(*a));
        let bands = a.required_bands().len();
        assert!(bands == 2 || bands == 3);
        assert!(!a.description().is_empty());
    }
    assert_eq!(all[0], Index::Evi);
    assert_eq!(all[17], Index::Chlrededge);
}

#[test]
fn text_comparison() {
    assert!(same_text("ndvi", "ndvi"));
    assert!(same_text("", ""));
    assert!(!same_text("ndvi", "ndwi"));
    assert!(!same_text("ndvi", "ndv"));
    assert!(!same_text("", "a"));
    assert!(same_text("über", "über"));
    assert!(!same_text("über", "uber"));
}

#[test]
fn error_messages_differ() {
    let unknown = IndexError::UnknownIndex.message();
    let missing = IndexError::MissingBand.message();
    let size = IndexError::DimensionMismatch.message();
    assert_eq!(unknown, "unknown index name");
    assert_eq!(missing, "no raster for a band that the index needs");
    assert_eq!(size, "output width and height must not be zero");
}
