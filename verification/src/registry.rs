//! The catalog of indices: for each index its name, the bands it needs, in
//! the order in which its formula takes their samples, and its formula.

use vstd::prelude::*;
use vstd::string::StrSliceExecFns;
use crate::indices::{
    afri1600, afri1600_value, afri2100, afri2100_value, ari, ari_value, arvi2, arvi2_value,
    atsavi, atsavi_value, avi, avi_value, bri, bri_value, chlgreen, chlgreen_value, chlrededge,
    chlrededge_value, cigreen, cigreen_value, cirededge, cirededge_value, evi, evi_value, gndvi,
    gndvi_value, msi, msi_value, ndbi, ndbi_value, ndmi, ndmi_value, ndvi, ndvi_value, ndwi,
    ndwi_value,
};
use crate::ratio::Ratio;

verus! {

/// Why no index raster was made.
#[derive(Clone, Copy, Debug, PartialEq, Eq)]
pub enum IndexError {
    /// The name is not the name of an index of the catalog.
    UnknownIndex,
    /// A band that the index needs was not supplied.
    MissingBand,
    /// The width or the height asked for is zero.
    DimensionMismatch,
}

impl IndexError {
    /// What went wrong, in words.
    pub open spec fn message_spec(self) -> Seq<char> {
        match self {
            IndexError::UnknownIndex => "unknown index name"@,
            IndexError::MissingBand => "no raster for a band that the index needs"@,
            IndexError::DimensionMismatch => "output width and height must not be zero"@,
        }
    }

    /// What went wrong, in words.
    pub fn message(&self) -> (text: &'static str)
        ensures
            text@ == self.message_spec(),
    {
        match self {
            IndexError::UnknownIndex => "unknown index name",
            IndexError::MissingBand => "no raster for a band that the index needs",
            IndexError::DimensionMismatch => "output width and height must not be zero",
        }
    }
}

/// A spectral band of the sensor.
#[derive(Clone, Copy, Debug, PartialEq, Eq)]
pub enum Band {
    /// Blue.
    B02,
    /// Green.
    B03,
    /// Red.
    B04,
    /// Vegetation red edge, 705 nm.
    B05,
    /// Vegetation red edge, 783 nm.
    B07,
    /// Near infrared.
    B08,
    /// Water vapour.
    B09,
    /// Short-wave infrared, 1610 nm.
    B11,
    /// Short-wave infrared, 2190 nm.
    B12,
}

impl Band {
    /// The identifier by which a file name tells the band.
    pub open spec fn identifier_spec(self) -> Seq<char> {
        match self {
            Band::B02 => "B02"@,
            Band::B03 => "B03"@,
            Band::B04 => "B04"@,
            Band::B05 => "B05"@,
            Band::B07 => "B07"@,
            Band::B08 => "B08"@,
            Band::B09 => "B09"@,
            Band::B11 => "B11"@,
            Band::B12 => "B12"@,
        }
    }

    /// The identifier by which a file name tells the band.
    pub fn identifier(&self) -> (id: &'static str)
        ensures
            id@ == self.identifier_spec(),
    {
        match self {
            Band::B02 => "B02",
            Band::B03 => "B03",
            Band::B04 => "B04",
            Band::B05 => "B05",
            Band::B07 => "B07",
            Band::B08 => "B08",
            Band::B09 => "B09",
            Band::B11 => "B11",
            Band::B12 => "B12",
        }
    }
}

/// An index of the catalog.
#[derive(Clone, Copy, Debug, PartialEq, Eq)]
pub enum Index {
    /// The enhanced vegetation index, `evi`.
    Evi,
    /// The normalised difference vegetation index, `ndvi`.
    Ndvi,
    /// The green normalised difference vegetation index, `gndvi`.
    Gndvi,
    /// The moisture stress index, `msi`.
    Msi,
    /// The normalised difference water index, `ndwi`.
    Ndwi,
    /// The normalised difference built-up index, `ndbi`.
    Ndbi,
    /// The normalised difference mud index, `ndmi`.
    Ndmi,
    /// The adjusted transformed soil-adjusted vegetation index, `atsavi`.
    Atsavi,
    /// The aerosol free vegetation index 1600, `afri1600`.
    Afri1600,
    /// The aerosol free vegetation index 2100, `afri2100`.
    Afri2100,
    /// The anthocyanin reflectance index, `ari`.
    Ari,
    /// The ashburn vegetation index, `avi`.
    Avi,
    /// The atmospherically resistant vegetation index 2, `arvi2`.
    Arvi2,
    /// The browning reflectance index, `bri`.
    Bri,
    /// The chlorophyll green, `chlgreen`.
    Chlgreen,
    /// The chlorophyll index green, `cigreen`.
    Cigreen,
    /// The chlorophyll index red-edge, `cirededge`.
    Cirededge,
    /// The chlorophyll red-edge, `chlrededge`.
    Chlrededge,
}

impl Index {
    /// The catalog: every index once.
    pub open spec fn catalog_spec() -> Seq<Index> {
        seq![
            Index::Evi,
            Index::Ndvi,
            Index::Gndvi,
            Index::Msi,
            Index::Ndwi,
            Index::Ndbi,
            Index::Ndmi,
            Index::Atsavi,
            Index::Afri1600,
            Index::Afri2100,
            Index::Ari,
            Index::Avi,
            Index::Arvi2,
            Index::Bri,
            Index::Chlgreen,
            Index::Cigreen,
            Index::Cirededge,
            Index::Chlrededge,
        ]
    }

    /// The place of the index in the catalog.
    pub open spec fn ordinal(self) -> int {
        match self {
            Index::Evi => 0,
            Index::Ndvi => 1,
            Index::Gndvi => 2,
            Index::Msi => 3,
            Index::Ndwi => 4,
            Index::Ndbi => 5,
            Index::Ndmi => 6,
            Index::Atsavi => 7,
            Index::Afri1600 => 8,
            Index::Afri2100 => 9,
            Index::Ari => 10,
            Index::Avi => 11,
            Index::Arvi2 => 12,
            Index::Bri => 13,
            Index::Chlgreen => 14,
            Index::Cigreen => 15,
            Index::Cirededge => 16,
            Index::Chlrededge => 17,
        }
    }

    /// The name of the index.
    pub open spec fn name_spec(self) -> Seq<char> {
        match self {
            Index::Evi => "evi"@,
            Index::Ndvi => "ndvi"@,
            Index::Gndvi => "gndvi"@,
            Index::Msi => "msi"@,
            Index::Ndwi => "ndwi"@,
            Index::Ndbi => "ndbi"@,
            Index::Ndmi => "ndmi"@,
            Index::Atsavi => "atsavi"@,
            Index::Afri1600 => "afri1600"@,
            Index::Afri2100 => "afri2100"@,
            Index::Ari => "ari"@,
            Index::Avi => "avi"@,
            Index::Arvi2 => "arvi2"@,
            Index::Bri => "bri"@,
            Index::Chlgreen => "chlgreen"@,
            Index::Cigreen => "cigreen"@,
            Index::Cirededge => "cirededge"@,
            Index::Chlrededge => "chlrededge"@,
        }
    }

    /// What the index is called in full.
    pub open spec fn description_spec(self) -> Seq<char> {
        match self {
            Index::Evi => "enhanced vegetation index"@,
            Index::Ndvi => "normalised difference vegetation index"@,
            Index::Gndvi => "green normalised difference vegetation index"@,
            Index::Msi => "moisture stress index"@,
            Index::Ndwi => "normalised difference water index"@,
            Index::Ndbi => "normalised difference built-up index"@,
            Index::Ndmi => "normalised difference mud index"@,
            Index::Atsavi => "adjusted transformed soil-adjusted vegetation index"@,
            Index::Afri1600 => "aerosol free vegetation index 1600"@,
            Index::Afri2100 => "aerosol free vegetation index 2100"@,
            Index::Ari => "anthocyanin reflectance index"@,
            Index::Avi => "ashburn vegetation index"@,
            Index::Arvi2 => "atmospherically resistant vegetation index 2"@,
            Index::Bri => "browning reflectance index"@,
            Index::Chlgreen => "chlorophyll green"@,
            Index::Cigreen => "chlorophyll index green"@,
            Index::Cirededge => "chlorophyll index red-edge"@,
            Index::Chlrededge => "chlorophyll red-edge"@,
        }
    }

    /// The bands that the index needs, in the order of its sample vector.
    pub open spec fn bands_spec(self) -> Seq<Band> {
        match self {
            Index::Evi => seq![Band::B02, Band::B04, Band::B08],
            Index::Ndvi => seq![Band::B04, Band::B08],
            Index::Gndvi => seq![Band::B03, Band::B08],
            Index::Msi => seq![Band::B08, Band::B11],
            Index::Ndwi => seq![Band::B03, Band::B11],
            Index::Ndbi => seq![Band::B08, Band::B11],
            Index::Ndmi => seq![Band::B08, Band::B09],
            Index::Atsavi => seq![Band::B05, Band::B09],
            Index::Afri1600 => seq![Band::B09, Band::B11],
            Index::Afri2100 => seq![Band::B09, Band::B12],
            Index::Ari => seq![Band::B03, Band::B05],
            Index::Avi => seq![Band::B04, Band::B09],
            Index::Arvi2 => seq![Band::B05, Band::B09],
            Index::Bri => seq![Band::B03, Band::B05, Band::B09],
            Index::Chlgreen => seq![Band::B03, Band::B07],
            Index::Cigreen => seq![Band::B03, Band::B09],
            Index::Cirededge => seq![Band::B05, Band::B09],
            Index::Chlrededge => seq![Band::B05, Band::B07],
        }
    }

    /// How many bands the index needs.
    pub open spec fn arity(self) -> nat {
        self.bands_spec().len()
    }

    /// The value of the formula of the index on the samples `px` of one
    /// pixel, one sample per band in the order of [`Index::bands_spec`].
    pub open spec fn value(self, px: Seq<u8>) -> Ratio
        recommends
            px.len() >= self.arity(),
    {
        match self {
            Index::Evi => evi_value(px),
            Index::Ndvi => ndvi_value(px),
            Index::Gndvi => gndvi_value(px),
            Index::Msi => msi_value(px),
            Index::Ndwi => ndwi_value(px),
            Index::Ndbi => ndbi_value(px),
            Index::Ndmi => ndmi_value(px),
            Index::Atsavi => atsavi_value(px),
            Index::Afri1600 => afri1600_value(px),
            Index::Afri2100 => afri2100_value(px),
            Index::Ari => ari_value(px),
            Index::Avi => avi_value(px),
            Index::Arvi2 => arvi2_value(px),
            Index::Bri => bri_value(px),
            Index::Chlgreen => chlgreen_value(px),
            Index::Cigreen => cigreen_value(px),
            Index::Cirededge => cirededge_value(px),
            Index::Chlrededge => chlrededge_value(px),
        }
    }

    /// The catalog: every index once.
    pub fn catalog() -> (all: Vec<Index>)
        ensures
            all@ == Index::catalog_spec(),
    {
        let all = vec![
            Index::Evi,
            Index::Ndvi,
            Index::Gndvi,
            Index::Msi,
            Index::Ndwi,
            Index::Ndbi,
            Index::Ndmi,
            Index::Atsavi,
            Index::Afri1600,
            Index::Afri2100,
            Index::Ari,
            Index::Avi,
            Index::Arvi2,
            Index::Bri,
            Index::Chlgreen,
            Index::Cigreen,
            Index::Cirededge,
            Index::Chlrededge,
        ];
        assert(all@ =~= Index::catalog_spec());
        all
    }

    /// The name of the index.
    pub fn name(&self) -> (name: &'static str)
        ensures
            name@ == self.name_spec(),
    {
        match self {
            Index::Evi => "evi",
            Index::Ndvi => "ndvi",
            Index::Gndvi => "gndvi",
            Index::Msi => "msi",
            Index::Ndwi => "ndwi",
            Index::Ndbi => "ndbi",
            Index::Ndmi => "ndmi",
            Index::Atsavi => "atsavi",
            Index::Afri1600 => "afri1600",
            Index::Afri2100 => "afri2100",
            Index::Ari => "ari",
            Index::Avi => "avi",
            Index::Arvi2 => "arvi2",
            Index::Bri => "bri",
            Index::Chlgreen => "chlgreen",
            Index::Cigreen => "cigreen",
            Index::Cirededge => "cirededge",
            Index::Chlrededge => "chlrededge",
        }
    }

    /// What the index is called in full.
    pub fn description(&self) -> (text: &'static str)
        ensures
            text@ == self.description_spec(),
    {
        match self {
            Index::Evi => "enhanced vegetation index",
            Index::Ndvi => "normalised difference vegetation index",
            Index::Gndvi => "green normalised difference vegetation index",
            Index::Msi => "moisture stress index",
            Index::Ndwi => "normalised difference water index",
            Index::Ndbi => "normalised difference built-up index",
            Index::Ndmi => "normalised difference mud index",
            Index::Atsavi => "adjusted transformed soil-adjusted vegetation index",
            Index::Afri1600 => "aerosol free vegetation index 1600",
            Index::Afri2100 => "aerosol free vegetation index 2100",
            Index::Ari => "anthocyanin reflectance index",
            Index::Avi => "ashburn vegetation index",
            Index::Arvi2 => "atmospherically resistant vegetation index 2",
            Index::Bri => "browning reflectance index",
            Index::Chlgreen => "chlorophyll green",
            Index::Cigreen => "chlorophyll index green",
            Index::Cirededge => "chlorophyll index red-edge",
            Index::Chlrededge => "chlorophyll red-edge",
        }
    }

    /// The bands that the index needs, in the order of its sample vector.
    pub fn required_bands(&self) -> (bands: Vec<Band>)
        ensures
            bands@ == self.bands_spec(),
    {
        let bands = match self {
            Index::Evi => vec![Band::B02, Band::B04, Band::B08],
            Index::Ndvi => vec![Band::B04, Band::B08],
            Index::Gndvi => vec![Band::B03, Band::B08],
            Index::Msi => vec![Band::B08, Band::B11],
            Index::Ndwi => vec![Band::B03, Band::B11],
            Index::Ndbi => vec![Band::B08, Band::B11],
            Index::Ndmi => vec![Band::B08, Band::B09],
            Index::Atsavi => vec![Band::B05, Band::B09],
            Index::Afri1600 => vec![Band::B09, Band::B11],
            Index::Afri2100 => vec![Band::B09, Band::B12],
            Index::Ari => vec![Band::B03, Band::B05],
            Index::Avi => vec![Band::B04, Band::B09],
            Index::Arvi2 => vec![Band::B05, Band::B09],
            Index::Bri => vec![Band::B03, Band::B05, Band::B09],
            Index::Chlgreen => vec![Band::B03, Band::B07],
            Index::Cigreen => vec![Band::B03, Band::B09],
            Index::Cirededge => vec![Band::B05, Band::B09],
            Index::Chlrededge => vec![Band::B05, Band::B07],
        };
        assert(bands@ =~= self.bands_spec());
        bands
    }

    /// The byte of the index for the samples of one pixel, one sample per
    /// band in the order of [`Index::required_bands`].
    pub fn evaluate(&self, px: Vec<u8>) -> (out: u8)
        requires
            px.len() >= self.arity(),
        ensures
            out == self.value(px@).to_byte(),
    {
        match self {
            Index::Evi => evi(px),
            Index::Ndvi => ndvi(px),
            Index::Gndvi => gndvi(px),
            Index::Msi => msi(px),
            Index::Ndwi => ndwi(px),
            Index::Ndbi => ndbi(px),
            Index::Ndmi => ndmi(px),
            Index::Atsavi => atsavi(px),
            Index::Afri1600 => afri1600(px),
            Index::Afri2100 => afri2100(px),
            Index::Ari => ari(px),
            Index::Avi => avi(px),
            Index::Arvi2 => arvi2(px),
            Index::Bri => bri(px),
            Index::Chlgreen => chlgreen(px),
            Index::Cigreen => cigreen(px),
            Index::Cirededge => cirededge(px),
            Index::Chlrededge => chlrededge(px),
        }
    }

    /// The index of the given name. Names are matched exactly, so a name
    /// that the catalog does not hold gives `UnknownIndex`.
    pub fn from_name(name: &str) -> (found: Result<Index, IndexError>)
        ensures
            match found {
                Ok(index) => name@ == index.name_spec(),
                Err(e) => e == IndexError::UnknownIndex && forall|index: Index|
                    name@ != #[trigger] index.name_spec(),
            },
    {
        let all = Index::catalog();
        let mut i: usize = 0;
        while i < all.len()
            invariant
                i <= all.len(),
                all@ == Index::catalog_spec(),
                forall|j: int| 0 <= j < i ==> name@ != (#[trigger] all@[j]).name_spec(),
            decreases all.len() - i,
        {
            let index = all[i];
            if same_text(name, index.name()) {
                return Ok(index);
            }
            i += 1;
        }
        assert forall|index: Index| name@ != #[trigger] index.name_spec() by {
            lemma_catalog_complete(index);
        }
        Err(IndexError::UnknownIndex)
    }
}

/// Whether two strings hold the same characters.
pub fn same_text(a: &str, b: &str) -> (same: bool)
    ensures
        same == (a@ == b@),
{
    let n = a.unicode_len();
    if n != b.unicode_len() {
        return false;
    }
    let mut i: usize = 0;
    while i < n
        invariant
            i <= n,
            n == a@.len(),
            n == b@.len(),
            forall|j: int| 0 <= j < i ==> a@[j] == b@[j],
        decreases n - i,
    {
        if a.get_char(i) != b.get_char(i) {
            return false;
        }
        i += 1;
    }
    assert(a@ =~= b@);
    true
}

/// Every index stands in the catalog, at its ordinal.
pub proof fn lemma_catalog_complete(index: Index)
    ensures
        0 <= index.ordinal() < Index::catalog_spec().len(),
        Index::catalog_spec()[index.ordinal()] == index,
{
}

/// What tells the names of the catalog apart: the length of a name, its
/// first two characters, and its fifth character or, in a name of fewer
/// than five, its third.
spec fn fingerprint(name: Seq<char>) -> (nat, char, char, char) {
    (name.len(), name[0], name[1], if name.len() > 4 { name[4] } else { name[2] })
}

/// The fingerprint of the name of each index.
spec fn fingerprint_of(index: Index) -> (nat, char, char, char) {
    match index {
        Index::Evi => (3, 'e', 'v', 'i'),
        Index::Ndvi => (4, 'n', 'd', 'v'),
        Index::Gndvi => (5, 'g', 'n', 'i'),
        Index::Msi => (3, 'm', 's', 'i'),
        Index::Ndwi => (4, 'n', 'd', 'w'),
        Index::Ndbi => (4, 'n', 'd', 'b'),
        Index::Ndmi => (4, 'n', 'd', 'm'),
        Index::Atsavi => (6, 'a', 't', 'v'),
        Index::Afri1600 => (8, 'a', 'f', '1'),
        Index::Afri2100 => (8, 'a', 'f', '2'),
        Index::Ari => (3, 'a', 'r', 'i'),
        Index::Avi => (3, 'a', 'v', 'i'),
        Index::Arvi2 => (5, 'a', 'r', '2'),
        Index::Bri => (3, 'b', 'r', 'i'),
        Index::Chlgreen => (8, 'c', 'h', 'r'),
        Index::Cigreen => (7, 'c', 'i', 'e'),
        Index::Cirededge => (9, 'c', 'i', 'd'),
        Index::Chlrededge => (10, 'c', 'h', 'e'),
    }
}

proof fn lemma_fingerprint(index: Index)
    ensures
        fingerprint(index.name_spec()) == fingerprint_of(index),
{
    match index {
        Index::Evi => {
            reveal_strlit("evi");
        },
        Index::Ndvi => {
            reveal_strlit("ndvi");
        },
        Index::Gndvi => {
            reveal_strlit("gndvi");
        },
        Index::Msi => {
            reveal_strlit("msi");
        },
        Index::Ndwi => {
            reveal_strlit("ndwi");
        },
        Index::Ndbi => {
            reveal_strlit("ndbi");
        },
        Index::Ndmi => {
            reveal_strlit("ndmi");
        },
        Index::Atsavi => {
            reveal_strlit("atsavi");
        },
        Index::Afri1600 => {
            reveal_strlit("afri1600");
        },
        Index::Afri2100 => {
            reveal_strlit("afri2100");
        },
        Index::Ari => {
            reveal_strlit("ari");
        },
        Index::Avi => {
            reveal_strlit("avi");
        },
        Index::Arvi2 => {
            reveal_strlit("arvi2");
        },
        Index::Bri => {
            reveal_strlit("bri");
        },
        Index::Chlgreen => {
            reveal_strlit("chlgreen");
        },
        Index::Cigreen => {
            reveal_strlit("cigreen");
        },
        Index::Cirededge => {
            reveal_strlit("cirededge");
        },
        Index::Chlrededge => {
            reveal_strlit("chlrededge");
        },
    }
}

/// No two indices of the catalog share a name: a name tells the index.
pub proof fn lemma_names_distinct(a: Index, b: Index)
    requires
        a.name_spec() == b.name_spec(),
    ensures
        a == b,
{
    lemma_fingerprint(a);
    lemma_fingerprint(b);
}

/// Every index needs two or three bands.
pub proof fn lemma_arity(index: Index)
    ensures
        2 <= index.arity() <= 3,
{
}

} // verus!
