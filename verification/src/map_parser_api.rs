use vstd::prelude::*;

use crate::api_info::ApiInfo;

verus! {

/// Identity of the map-parser capability as the host registers it.
pub fn api_info() -> (r: ApiInfo)
    ensures
        r.name@ == "MapParserApi"@,
        r.version == 1,
{
    ApiInfo::new("MapParserApi", 1)
}

/// Host-side face of the map-parser capability; it carries no state yet.
pub struct MapParserApi {}

/// The callback record an extension hands to the host when it fulfils the
/// map-parser capability.  `register_map_formats` stands for the
/// extension's registration function; the embedder resolves and invokes the
/// function the token denotes.
#[derive(Clone, Copy, PartialEq, Eq, Structural, Debug)]
pub struct MapParserCallbacks {
    pub register_map_formats: usize,
}

} // verus!
