//! Identifiers and per-stage parameters for the proof-composition pipeline.

use vstd::prelude::*;
use vstd::string::StringExecFns;

verus! {

/// The stages of the proof generation pipeline.
///
/// The innermost stage proves a chunk of execution directly; every later
/// stage composes the previous stage's proof (or proofs) into a new one.
#[derive(Clone, Copy, Debug, PartialEq, Eq, Structural)]
pub enum LayerId {
    /// Super (inner) circuit layer.
    Inner,
    /// Compression wide layer.
    Layer1,
    /// Compression thin layer (to generate chunk-proof).
    Layer2,
    /// Layer to batch multiple chunk proofs.
    Layer3,
    /// Compression thin layer (to generate batch-proof).
    Layer4,
    /// Recursion over a bundle of batches.
    Layer5,
    /// Compression thin layer (to generate bundle-proof verifiable in EVM).
    Layer6,
}

/// The circuit-size parameter (degree) of each pipeline stage.
///
/// The degrees are read once at startup from per-stage configuration
/// files and then carried explicitly, so that every stage is built
/// against the parameters the caller chose.
pub struct LayerDegrees {
    pub inner: u32,
    pub layer1: u32,
    pub layer2: u32,
    pub layer3: u32,
    pub layer4: u32,
    pub layer5: u32,
    pub layer6: u32,
}

impl LayerId {
    /// The string identifier of the layer.
    pub open spec fn spec_id(self) -> Seq<char> {
        match self {
            LayerId::Inner => "inner"@,
            LayerId::Layer1 => "layer1"@,
            LayerId::Layer2 => "layer2"@,
            LayerId::Layer3 => "layer3"@,
            LayerId::Layer4 => "layer4"@,
            LayerId::Layer5 => "layer5"@,
            LayerId::Layer6 => "layer6"@,
        }
    }

    /// Returns the identifier by layer.
    pub fn id(&self) -> (r: &'static str)
        ensures
            r@ == self.spec_id(),
    {
        match self {
            LayerId::Inner => "inner",
            LayerId::Layer1 => "layer1",
            LayerId::Layer2 => "layer2",
            LayerId::Layer3 => "layer3",
            LayerId::Layer4 => "layer4",
            LayerId::Layer5 => "layer5",
            LayerId::Layer6 => "layer6",
        }
    }

    /// The degree this layer's circuit is configured with.
    pub open spec fn spec_degree(self, degrees: &LayerDegrees) -> u32 {
        match self {
            LayerId::Inner => degrees.inner,
            LayerId::Layer1 => degrees.layer1,
            LayerId::Layer2 => degrees.layer2,
            LayerId::Layer3 => degrees.layer3,
            LayerId::Layer4 => degrees.layer4,
            LayerId::Layer5 => degrees.layer5,
            LayerId::Layer6 => degrees.layer6,
        }
    }

    /// The degree (k) for the circuit by layer.
    pub fn degree(&self, degrees: &LayerDegrees) -> (r: u32)
        ensures
            r == self.spec_degree(degrees),
    {
        match self {
            LayerId::Inner => degrees.inner,
            LayerId::Layer1 => degrees.layer1,
            LayerId::Layer2 => degrees.layer2,
            LayerId::Layer3 => degrees.layer3,
            LayerId::Layer4 => degrees.layer4,
            LayerId::Layer5 => degrees.layer5,
            LayerId::Layer6 => degrees.layer6,
        }
    }

    /// The file name of the configuration-shape parameters for this layer.
    ///
    /// The inner layer has no configuration file.
    pub open spec fn spec_config_file(self) -> Seq<char> {
        match self {
            LayerId::Inner => Seq::<char>::empty(),
            LayerId::Layer1 => "layer1.config"@,
            LayerId::Layer2 => "layer2.config"@,
            LayerId::Layer3 => "layer3.config"@,
            LayerId::Layer4 => "layer4.config"@,
            LayerId::Layer5 => "layer5.config"@,
            LayerId::Layer6 => "layer6.config"@,
        }
    }

    /// The path to the configuration-shape parameters used to configure the
    /// circuit of this layer, inside the given assets directory.
    pub fn config_path(&self, assets_dir: &str) -> (r: String)
        requires
            *self != LayerId::Inner,
        ensures
            r@ == assets_dir@ + "/"@ + self.spec_config_file(),
    {
        let file = match self {
            LayerId::Inner => "",
            LayerId::Layer1 => "layer1.config",
            LayerId::Layer2 => "layer2.config",
            LayerId::Layer3 => "layer3.config",
            LayerId::Layer4 => "layer4.config",
            LayerId::Layer5 => "layer5.config",
            LayerId::Layer6 => "layer6.config",
        };
        let mut r = String::from_str(assets_dir);
        r.append("/");
        r.append(file);
        r
    }

    /// Whether or not the proof artifact generated at this layer carries an
    /// accumulator.
    ///
    /// Every layer on top of the innermost layer has an accumulator.
    pub fn accumulator(&self) -> (r: bool)
        ensures
            r == (*self != LayerId::Inner),
    {
        !matches!(self, LayerId::Inner)
    }
}

/// The path of an asset file inside the assets directory.
pub fn asset_file_path(assets_dir: &str, filename: &str) -> (r: String)
    ensures
        r@ == assets_dir@ + "/"@ + filename@,
{
    let mut r = String::from_str(assets_dir);
    r.append("/");
    r.append(filename);
    r
}

/// Returns the path to the configuration-shape parameters given the string
/// identifier of a layer that has one.
pub fn layer_config_path(id: &str, assets_dir: &str) -> (r: String)
    requires
        id@ == "layer1"@ || id@ == "layer2"@ || id@ == "layer3"@ || id@ == "layer4"@
            || id@ == "layer5"@ || id@ == "layer6"@,
    ensures
        r@ == assets_dir@ + "/"@ + id@ + ".config"@,
{
    let mut r = String::from_str(assets_dir);
    r.append("/");
    r.append(id);
    r.append(".config");
    r
}

} // verus!
