use vstd::prelude::*;

verus! {

/// The sprites and sounds bundled with the program, named as in the asset table.
#[allow(non_camel_case_types)]
#[derive(Debug, Clone, Copy, PartialEq, Eq, Structural)]
pub enum Asset {
    FAMILYGUY_SPR,
    CRACK_SPR,
    OHCOMEON_SPR,
    OHCOMEON,
    DIMENTIA_SPR,
    DIES_SPR,
    PI_SPR,
    CRIES_SPR,
    HEARTATTACK_SPR,
    OLD_SPR,
    STUPID_SPR,
    ALCHOHOLIC_SPR,
    FAT_SPR,
    MOTHER1_SPR,
    NERDY_SPR,
    BROKE_SPR,
    SKINNY_SPR,
    SHORT_SPR,
    PALE_SPR,
    BLOWSNOSE_SPR,
    DESPICABLEME3_SPR,
    SCOTTPILGRIM4_SPR,
    HYPER_SPR,
    AMAZING_SPR,
    BLOB_SPR,
    SMASHBROS_SPR,
    DOWNTOCLOWN_SPR,
    GENERIC_SPR,
    HATEFUL_SPR,
    HORRIBLE_SPR,
    HOTLADY_SPR,
    IMMATURE_SPR,
    LAXADAISICAL_SPR,
    LOUD_SPR,
    MEDIOCRE_SPR,
    RICH_SPR,
    SIGMA_SPR,
    SMART_SPR,
    STRICT_SPR,
    TALL_SPR,
    TRASHY_SPR,
}

impl Asset {
    /// Name of the constant under which the asset is registered.
    pub open spec fn spec_const_name(self) -> Seq<char> {
        match self {
            Asset::FAMILYGUY_SPR => "FAMILYGUY_SPR"@,
            Asset::CRACK_SPR => "CRACK_SPR"@,
            Asset::OHCOMEON_SPR => "OHCOMEON_SPR"@,
            Asset::OHCOMEON => "OHCOMEON"@,
            Asset::DIMENTIA_SPR => "DIMENTIA_SPR"@,
            Asset::DIES_SPR => "DIES_SPR"@,
            Asset::PI_SPR => "PI_SPR"@,
            Asset::CRIES_SPR => "CRIES_SPR"@,
            Asset::HEARTATTACK_SPR => "HEARTATTACK_SPR"@,
            Asset::OLD_SPR => "OLD_SPR"@,
            Asset::STUPID_SPR => "STUPID_SPR"@,
            Asset::ALCHOHOLIC_SPR => "ALCHOHOLIC_SPR"@,
            Asset::FAT_SPR => "FAT_SPR"@,
            Asset::MOTHER1_SPR => "MOTHER1_SPR"@,
            Asset::NERDY_SPR => "NERDY_SPR"@,
            Asset::BROKE_SPR => "BROKE_SPR"@,
            Asset::SKINNY_SPR => "SKINNY_SPR"@,
            Asset::SHORT_SPR => "SHORT_SPR"@,
            Asset::PALE_SPR => "PALE_SPR"@,
            Asset::BLOWSNOSE_SPR => "BLOWSNOSE_SPR"@,
            Asset::DESPICABLEME3_SPR => "DESPICABLEME3_SPR"@,
            Asset::SCOTTPILGRIM4_SPR => "SCOTTPILGRIM4_SPR"@,
            Asset::HYPER_SPR => "HYPER_SPR"@,
            Asset::AMAZING_SPR => "AMAZING_SPR"@,
            Asset::BLOB_SPR => "BLOB_SPR"@,
            Asset::SMASHBROS_SPR => "SMASHBROS_SPR"@,
            Asset::DOWNTOCLOWN_SPR => "DOWNTOCLOWN_SPR"@,
            Asset::GENERIC_SPR => "GENERIC_SPR"@,
            Asset::HATEFUL_SPR => "HATEFUL_SPR"@,
            Asset::HORRIBLE_SPR => "HORRIBLE_SPR"@,
            Asset::HOTLADY_SPR => "HOTLADY_SPR"@,
            Asset::IMMATURE_SPR => "IMMATURE_SPR"@,
            Asset::LAXADAISICAL_SPR => "LAXADAISICAL_SPR"@,
            Asset::LOUD_SPR => "LOUD_SPR"@,
            Asset::MEDIOCRE_SPR => "MEDIOCRE_SPR"@,
            Asset::RICH_SPR => "RICH_SPR"@,
            Asset::SIGMA_SPR => "SIGMA_SPR"@,
            Asset::SMART_SPR => "SMART_SPR"@,
            Asset::STRICT_SPR => "STRICT_SPR"@,
            Asset::TALL_SPR => "TALL_SPR"@,
            Asset::TRASHY_SPR => "TRASHY_SPR"@,
        }
    }

    /// Path of the asset file, relative to the source directory.
    pub open spec fn spec_path(self) -> Seq<char> {
        match self {
            Asset::FAMILYGUY_SPR => "../assets/overlays/familyguy.jpg"@,
            Asset::CRACK_SPR => "../assets/overlays/crack.gif"@,
            Asset::OHCOMEON_SPR => "../assets/overlays/shes17scott.jpg"@,
            Asset::OHCOMEON => "../assets/OHCOMEON.mp3"@,
            Asset::DIMENTIA_SPR => "../assets/overlays/dimentia.jpg"@,
            Asset::DIES_SPR => "../assets/overlays/dies.jpg"@,
            Asset::PI_SPR => "../assets/overlays/pi.jpg"@,
            Asset::CRIES_SPR => "../assets/overlays/cries.jpg"@,
            Asset::HEARTATTACK_SPR => "../assets/overlays/heartattack.gif"@,
            Asset::OLD_SPR => "../assets/overlays/old.jpg"@,
            Asset::STUPID_SPR => "../assets/overlays/stupid.jpg"@,
            Asset::ALCHOHOLIC_SPR => "../assets/overlays/alchoholic.jpg"@,
            Asset::FAT_SPR => "../assets/overlays/fat.jpg"@,
            Asset::MOTHER1_SPR => "../assets/overlays/mother1.jpg"@,
            Asset::NERDY_SPR => "../assets/overlays/nerdy.png"@,
            Asset::BROKE_SPR => "../assets/overlays/broke.jpg"@,
            Asset::SKINNY_SPR => "../assets/overlays/skinny.png"@,
            Asset::SHORT_SPR => "../assets/overlays/short.jpg"@,
            Asset::PALE_SPR => "../assets/overlays/pale.jpg"@,
            Asset::BLOWSNOSE_SPR => "../assets/overlays/blowsnose.jpg"@,
            Asset::DESPICABLEME3_SPR => "../assets/overlays/despicableme3.jpg"@,
            Asset::SCOTTPILGRIM4_SPR => "../assets/overlays/scottpilgrim4.jpg"@,
            Asset::HYPER_SPR => "../assets/overlays/hyper.jpg"@,
            Asset::AMAZING_SPR => "../assets/overlays/amazing.jpg"@,
            Asset::BLOB_SPR => "../assets/overlays/blob.png"@,
            Asset::SMASHBROS_SPR => "../assets/overlays/smashbros.png"@,
            Asset::DOWNTOCLOWN_SPR => "../assets/overlays/downtoclown.jpg"@,
            Asset::GENERIC_SPR => "../assets/overlays/generic.png"@,
            Asset::HATEFUL_SPR => "../assets/overlays/hateful.jpg"@,
            Asset::HORRIBLE_SPR => "../assets/overlays/horrible.jpg"@,
            Asset::HOTLADY_SPR => "../assets/overlays/hotlady.png"@,
            Asset::IMMATURE_SPR => "../assets/overlays/immature.png"@,
            Asset::LAXADAISICAL_SPR => "../assets/overlays/laxadaisical.png"@,
            Asset::LOUD_SPR => "../assets/overlays/loud.jpg"@,
            Asset::MEDIOCRE_SPR => "../assets/overlays/mediocre.jpg"@,
            Asset::RICH_SPR => "../assets/overlays/rich.png"@,
            Asset::SIGMA_SPR => "../assets/overlays/sigma.jpg"@,
            Asset::SMART_SPR => "../assets/overlays/smart.jpg"@,
            Asset::STRICT_SPR => "../assets/overlays/strict.jpg"@,
            Asset::TALL_SPR => "../assets/overlays/tall.jpg"@,
            Asset::TRASHY_SPR => "../assets/overlays/trashy.png"@,
        }
    }

    pub fn const_name(self) -> (r: &'static str)
        ensures
            r@ == self.spec_const_name(),
    {
        match self {
            Asset::FAMILYGUY_SPR => "FAMILYGUY_SPR",
            Asset::CRACK_SPR => "CRACK_SPR",
            Asset::OHCOMEON_SPR => "OHCOMEON_SPR",
            Asset::OHCOMEON => "OHCOMEON",
            Asset::DIMENTIA_SPR => "DIMENTIA_SPR",
            Asset::DIES_SPR => "DIES_SPR",
            Asset::PI_SPR => "PI_SPR",
            Asset::CRIES_SPR => "CRIES_SPR",
            Asset::HEARTATTACK_SPR => "HEARTATTACK_SPR",
            Asset::OLD_SPR => "OLD_SPR",
            Asset::STUPID_SPR => "STUPID_SPR",
            Asset::ALCHOHOLIC_SPR => "ALCHOHOLIC_SPR",
            Asset::FAT_SPR => "FAT_SPR",
            Asset::MOTHER1_SPR => "MOTHER1_SPR",
            Asset::NERDY_SPR => "NERDY_SPR",
            Asset::BROKE_SPR => "BROKE_SPR",
            Asset::SKINNY_SPR => "SKINNY_SPR",
            Asset::SHORT_SPR => "SHORT_SPR",
            Asset::PALE_SPR => "PALE_SPR",
            Asset::BLOWSNOSE_SPR => "BLOWSNOSE_SPR",
            Asset::DESPICABLEME3_SPR => "DESPICABLEME3_SPR",
            Asset::SCOTTPILGRIM4_SPR => "SCOTTPILGRIM4_SPR",
            Asset::HYPER_SPR => "HYPER_SPR",
            Asset::AMAZING_SPR => "AMAZING_SPR",
            Asset::BLOB_SPR => "BLOB_SPR",
            Asset::SMASHBROS_SPR => "SMASHBROS_SPR",
            Asset::DOWNTOCLOWN_SPR => "DOWNTOCLOWN_SPR",
            Asset::GENERIC_SPR => "GENERIC_SPR",
            Asset::HATEFUL_SPR => "HATEFUL_SPR",
            Asset::HORRIBLE_SPR => "HORRIBLE_SPR",
            Asset::HOTLADY_SPR => "HOTLADY_SPR",
            Asset::IMMATURE_SPR => "IMMATURE_SPR",
            Asset::LAXADAISICAL_SPR => "LAXADAISICAL_SPR",
            Asset::LOUD_SPR => "LOUD_SPR",
            Asset::MEDIOCRE_SPR => "MEDIOCRE_SPR",
            Asset::RICH_SPR => "RICH_SPR",
            Asset::SIGMA_SPR => "SIGMA_SPR",
            Asset::SMART_SPR => "SMART_SPR",
            Asset::STRICT_SPR => "STRICT_SPR",
            Asset::TALL_SPR => "TALL_SPR",
            Asset::TRASHY_SPR => "TRASHY_SPR",
        }
    }

    pub fn path(self) -> (r: &'static str)
        ensures
            r@ == self.spec_path(),
    {
        match self {
            Asset::FAMILYGUY_SPR => "../assets/overlays/familyguy.jpg",
            Asset::CRACK_SPR => "../assets/overlays/crack.gif",
            Asset::OHCOMEON_SPR => "../assets/overlays/shes17scott.jpg",
            Asset::OHCOMEON => "../assets/OHCOMEON.mp3",
            Asset::DIMENTIA_SPR => "../assets/overlays/dimentia.jpg",
            Asset::DIES_SPR => "../assets/overlays/dies.jpg",
            Asset::PI_SPR => "../assets/overlays/pi.jpg",
            Asset::CRIES_SPR => "../assets/overlays/cries.jpg",
            Asset::HEARTATTACK_SPR => "../assets/overlays/heartattack.gif",
            Asset::OLD_SPR => "../assets/overlays/old.jpg",
            Asset::STUPID_SPR => "../assets/overlays/stupid.jpg",
            Asset::ALCHOHOLIC_SPR => "../assets/overlays/alchoholic.jpg",
            Asset::FAT_SPR => "../assets/overlays/fat.jpg",
            Asset::MOTHER1_SPR => "../assets/overlays/mother1.jpg",
            Asset::NERDY_SPR => "../assets/overlays/nerdy.png",
            Asset::BROKE_SPR => "../assets/overlays/broke.jpg",
            Asset::SKINNY_SPR => "../assets/overlays/skinny.png",
            Asset::SHORT_SPR => "../assets/overlays/short.jpg",
            Asset::PALE_SPR => "../assets/overlays/pale.jpg",
            Asset::BLOWSNOSE_SPR => "../assets/overlays/blowsnose.jpg",
            Asset::DESPICABLEME3_SPR => "../assets/overlays/despicableme3.jpg",
            Asset::SCOTTPILGRIM4_SPR => "../assets/overlays/scottpilgrim4.jpg",
            Asset::HYPER_SPR => "../assets/overlays/hyper.jpg",
            Asset::AMAZING_SPR => "../assets/overlays/amazing.jpg",
            Asset::BLOB_SPR => "../assets/overlays/blob.png",
            Asset::SMASHBROS_SPR => "../assets/overlays/smashbros.png",
            Asset::DOWNTOCLOWN_SPR => "../assets/overlays/downtoclown.jpg",
            Asset::GENERIC_SPR => "../assets/overlays/generic.png",
            Asset::HATEFUL_SPR => "../assets/overlays/hateful.jpg",
            Asset::HORRIBLE_SPR => "../assets/overlays/horrible.jpg",
            Asset::HOTLADY_SPR => "../assets/overlays/hotlady.png",
            Asset::IMMATURE_SPR => "../assets/overlays/immature.png",
            Asset::LAXADAISICAL_SPR => "../assets/overlays/laxadaisical.png",
            Asset::LOUD_SPR => "../assets/overlays/loud.jpg",
            Asset::MEDIOCRE_SPR => "../assets/overlays/mediocre.jpg",
            Asset::RICH_SPR => "../assets/overlays/rich.png",
            Asset::SIGMA_SPR => "../assets/overlays/sigma.jpg",
            Asset::SMART_SPR => "../assets/overlays/smart.jpg",
            Asset::STRICT_SPR => "../assets/overlays/strict.jpg",
            Asset::TALL_SPR => "../assets/overlays/tall.jpg",
            Asset::TRASHY_SPR => "../assets/overlays/trashy.png",
        }
    }
}

/// Every asset, in the order of the asset table.
pub open spec fn asset_table() -> Seq<Asset> {
    seq![
        Asset::FAMILYGUY_SPR,
        Asset::CRACK_SPR,
        Asset::OHCOMEON_SPR,
        Asset::OHCOMEON,
        Asset::DIMENTIA_SPR,
        Asset::DIES_SPR,
        Asset::PI_SPR,
        Asset::CRIES_SPR,
        Asset::HEARTATTACK_SPR,
        Asset::OLD_SPR,
        Asset::STUPID_SPR,
        Asset::ALCHOHOLIC_SPR,
        Asset::FAT_SPR,
        Asset::MOTHER1_SPR,
        Asset::NERDY_SPR,
        Asset::BROKE_SPR,
        Asset::SKINNY_SPR,
        Asset::SHORT_SPR,
        Asset::PALE_SPR,
        Asset::BLOWSNOSE_SPR,
        Asset::DESPICABLEME3_SPR,
        Asset::SCOTTPILGRIM4_SPR,
        Asset::HYPER_SPR,
        Asset::AMAZING_SPR,
        Asset::BLOB_SPR,
        Asset::SMASHBROS_SPR,
        Asset::DOWNTOCLOWN_SPR,
        Asset::GENERIC_SPR,
        Asset::HATEFUL_SPR,
        Asset::HORRIBLE_SPR,
        Asset::HOTLADY_SPR,
        Asset::IMMATURE_SPR,
        Asset::LAXADAISICAL_SPR,
        Asset::LOUD_SPR,
        Asset::MEDIOCRE_SPR,
        Asset::RICH_SPR,
        Asset::SIGMA_SPR,
        Asset::SMART_SPR,
        Asset::STRICT_SPR,
        Asset::TALL_SPR,
        Asset::TRASHY_SPR,
    ]
}

/// Every asset, in the order of the asset table.
pub fn all_assets() -> (r: Vec<Asset>)
    ensures
        r@ == asset_table(),
{
    vec![
        Asset::FAMILYGUY_SPR,
        Asset::CRACK_SPR,
        Asset::OHCOMEON_SPR,
        Asset::OHCOMEON,
        Asset::DIMENTIA_SPR,
        Asset::DIES_SPR,
        Asset::PI_SPR,
        Asset::CRIES_SPR,
        Asset::HEARTATTACK_SPR,
        Asset::OLD_SPR,
        Asset::STUPID_SPR,
        Asset::ALCHOHOLIC_SPR,
        Asset::FAT_SPR,
        Asset::MOTHER1_SPR,
        Asset::NERDY_SPR,
        Asset::BROKE_SPR,
        Asset::SKINNY_SPR,
        Asset::SHORT_SPR,
        Asset::PALE_SPR,
        Asset::BLOWSNOSE_SPR,
        Asset::DESPICABLEME3_SPR,
        Asset::SCOTTPILGRIM4_SPR,
        Asset::HYPER_SPR,
        Asset::AMAZING_SPR,
        Asset::BLOB_SPR,
        Asset::SMASHBROS_SPR,
        Asset::DOWNTOCLOWN_SPR,
        Asset::GENERIC_SPR,
        Asset::HATEFUL_SPR,
        Asset::HORRIBLE_SPR,
        Asset::HOTLADY_SPR,
        Asset::IMMATURE_SPR,
        Asset::LAXADAISICAL_SPR,
        Asset::LOUD_SPR,
        Asset::MEDIOCRE_SPR,
        Asset::RICH_SPR,
        Asset::SIGMA_SPR,
        Asset::SMART_SPR,
        Asset::STRICT_SPR,
        Asset::TALL_SPR,
        Asset::TRASHY_SPR,
    ]
}

} // verus!
