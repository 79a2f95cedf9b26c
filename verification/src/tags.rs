//! The textual tags of the catalog entries: the stable names under which
//! an entry is written out and read back.

use vstd::prelude::*;

use crate::post::RegisteredPoStProof;
use crate::seal::RegisteredSealProof;

verus! {

/// The five tags differ from one another.
pub proof fn lemma_tags_distinct()
    ensures
        "StackedDrg1KiBV1"@ != "StackedDrg16MiBV1"@,
        "StackedDrg1KiBV1"@ != "StackedDrg256MiBV1"@,
        "StackedDrg1KiBV1"@ != "StackedDrg1GiBV1"@,
        "StackedDrg1KiBV1"@ != "StackedDrg32GiBV1"@,
        "StackedDrg16MiBV1"@ != "StackedDrg256MiBV1"@,
        "StackedDrg16MiBV1"@ != "StackedDrg1GiBV1"@,
        "StackedDrg16MiBV1"@ != "StackedDrg32GiBV1"@,
        "StackedDrg256MiBV1"@ != "StackedDrg1GiBV1"@,
        "StackedDrg256MiBV1"@ != "StackedDrg32GiBV1"@,
        "StackedDrg1GiBV1"@ != "StackedDrg32GiBV1"@,
{
    reveal_strlit("StackedDrg1KiBV1");
    reveal_strlit("StackedDrg16MiBV1");
    reveal_strlit("StackedDrg256MiBV1");
    reveal_strlit("StackedDrg1GiBV1");
    reveal_strlit("StackedDrg32GiBV1");
    assert("StackedDrg1KiBV1"@.len() == 16);
    assert("StackedDrg16MiBV1"@.len() == 17);
    assert("StackedDrg256MiBV1"@.len() == 18);
    assert("StackedDrg1GiBV1"@.len() == 16);
    assert("StackedDrg32GiBV1"@.len() == 17);
    assert("StackedDrg1KiBV1"@[11] == 'K');
    assert("StackedDrg1GiBV1"@[11] == 'G');
    assert("StackedDrg16MiBV1"@[10] == '1');
    assert("StackedDrg32GiBV1"@[10] == '3');
}

impl RegisteredSealProof {
    /// The tag of a seal proof: the name of its variant.
    pub open spec fn spec_tag(self) -> Seq<char> {
        match self {
            RegisteredSealProof::StackedDrg1KiBV1 => "StackedDrg1KiBV1"@,
            RegisteredSealProof::StackedDrg16MiBV1 => "StackedDrg16MiBV1"@,
            RegisteredSealProof::StackedDrg256MiBV1 => "StackedDrg256MiBV1"@,
            RegisteredSealProof::StackedDrg1GiBV1 => "StackedDrg1GiBV1"@,
            RegisteredSealProof::StackedDrg32GiBV1 => "StackedDrg32GiBV1"@,
        }
    }

    /// The a seal proof that a tag names, if it names one.
    pub open spec fn spec_from_tag(tag: Seq<char>) -> Option<RegisteredSealProof> {
        if tag == "StackedDrg1KiBV1"@ {
            Some(RegisteredSealProof::StackedDrg1KiBV1)
        } else if tag == "StackedDrg16MiBV1"@ {
            Some(RegisteredSealProof::StackedDrg16MiBV1)
        } else if tag == "StackedDrg256MiBV1"@ {
            Some(RegisteredSealProof::StackedDrg256MiBV1)
        } else if tag == "StackedDrg1GiBV1"@ {
            Some(RegisteredSealProof::StackedDrg1GiBV1)
        } else if tag == "StackedDrg32GiBV1"@ {
            Some(RegisteredSealProof::StackedDrg32GiBV1)
        } else {
            None
        }
    }

    /// The tag under which this proof is written out.
    pub fn tag(self) -> (tag: String)
        ensures
            tag@ == self.spec_tag(),
    {
        match self {
            RegisteredSealProof::StackedDrg1KiBV1 => String::from_str("StackedDrg1KiBV1"),
            RegisteredSealProof::StackedDrg16MiBV1 => String::from_str("StackedDrg16MiBV1"),
            RegisteredSealProof::StackedDrg256MiBV1 => String::from_str("StackedDrg256MiBV1"),
            RegisteredSealProof::StackedDrg1GiBV1 => String::from_str("StackedDrg1GiBV1"),
            RegisteredSealProof::StackedDrg32GiBV1 => String::from_str("StackedDrg32GiBV1"),
        }
    }

    /// Reads a tag back. A tag that names no entry of the catalog gives
    /// `None`: no entry stands in for an unknown tag.
    pub fn from_tag(tag: &str) -> (proof_type: Option<RegisteredSealProof>)
        ensures
            proof_type == RegisteredSealProof::spec_from_tag(tag@),
    {
        let given = String::from_str(tag);
        if given == String::from_str("StackedDrg1KiBV1") {
            Some(RegisteredSealProof::StackedDrg1KiBV1)
        } else if given == String::from_str("StackedDrg16MiBV1") {
            Some(RegisteredSealProof::StackedDrg16MiBV1)
        } else if given == String::from_str("StackedDrg256MiBV1") {
            Some(RegisteredSealProof::StackedDrg256MiBV1)
        } else if given == String::from_str("StackedDrg1GiBV1") {
            Some(RegisteredSealProof::StackedDrg1GiBV1)
        } else if given == String::from_str("StackedDrg32GiBV1") {
            Some(RegisteredSealProof::StackedDrg32GiBV1)
        } else {
            None
        }
    }

    /// Reading back the tag of an entry gives that entry, and a tag that
    /// reads back as an entry is that entry's tag.
    pub proof fn law_tag_round_trip(self, tag: Seq<char>)
        ensures
            RegisteredSealProof::spec_from_tag(self.spec_tag()) == Some(self),
            RegisteredSealProof::spec_from_tag(tag) == Some(self) <==> tag == self.spec_tag(),
    {
        lemma_tags_distinct();
    }
}

impl RegisteredPoStProof {
    /// The tag of a verification-time proof: the name of its variant.
    pub open spec fn spec_tag(self) -> Seq<char> {
        match self {
            RegisteredPoStProof::StackedDrg1KiBV1 => "StackedDrg1KiBV1"@,
            RegisteredPoStProof::StackedDrg16MiBV1 => "StackedDrg16MiBV1"@,
            RegisteredPoStProof::StackedDrg256MiBV1 => "StackedDrg256MiBV1"@,
            RegisteredPoStProof::StackedDrg1GiBV1 => "StackedDrg1GiBV1"@,
            RegisteredPoStProof::StackedDrg32GiBV1 => "StackedDrg32GiBV1"@,
        }
    }

    /// The a verification-time proof that a tag names, if it names one.
    pub open spec fn spec_from_tag(tag: Seq<char>) -> Option<RegisteredPoStProof> {
        if tag == "StackedDrg1KiBV1"@ {
            Some(RegisteredPoStProof::StackedDrg1KiBV1)
        } else if tag == "StackedDrg16MiBV1"@ {
            Some(RegisteredPoStProof::StackedDrg16MiBV1)
        } else if tag == "StackedDrg256MiBV1"@ {
            Some(RegisteredPoStProof::StackedDrg256MiBV1)
        } else if tag == "StackedDrg1GiBV1"@ {
            Some(RegisteredPoStProof::StackedDrg1GiBV1)
        } else if tag == "StackedDrg32GiBV1"@ {
            Some(RegisteredPoStProof::StackedDrg32GiBV1)
        } else {
            None
        }
    }

    /// The tag under which this proof is written out.
    pub fn tag(self) -> (tag: String)
        ensures
            tag@ == self.spec_tag(),
    {
        match self {
            RegisteredPoStProof::StackedDrg1KiBV1 => String::from_str("StackedDrg1KiBV1"),
            RegisteredPoStProof::StackedDrg16MiBV1 => String::from_str("StackedDrg16MiBV1"),
            RegisteredPoStProof::StackedDrg256MiBV1 => String::from_str("StackedDrg256MiBV1"),
            RegisteredPoStProof::StackedDrg1GiBV1 => String::from_str("StackedDrg1GiBV1"),
            RegisteredPoStProof::StackedDrg32GiBV1 => String::from_str("StackedDrg32GiBV1"),
        }
    }

    /// Reads a tag back. A tag that names no entry of the catalog gives
    /// `None`: no entry stands in for an unknown tag.
    pub fn from_tag(tag: &str) -> (proof_type: Option<RegisteredPoStProof>)
        ensures
            proof_type == RegisteredPoStProof::spec_from_tag(tag@),
    {
        let given = String::from_str(tag);
        if given == String::from_str("StackedDrg1KiBV1") {
            Some(RegisteredPoStProof::StackedDrg1KiBV1)
        } else if given == String::from_str("StackedDrg16MiBV1") {
            Some(RegisteredPoStProof::StackedDrg16MiBV1)
        } else if given == String::from_str("StackedDrg256MiBV1") {
            Some(RegisteredPoStProof::StackedDrg256MiBV1)
        } else if given == String::from_str("StackedDrg1GiBV1") {
            Some(RegisteredPoStProof::StackedDrg1GiBV1)
        } else if given == String::from_str("StackedDrg32GiBV1") {
            Some(RegisteredPoStProof::StackedDrg32GiBV1)
        } else {
            None
        }
    }

    /// Reading back the tag of an entry gives that entry, and a tag that
    /// reads back as an entry is that entry's tag.
    pub proof fn law_tag_round_trip(self, tag: Seq<char>)
        ensures
            RegisteredPoStProof::spec_from_tag(self.spec_tag()) == Some(self),
            RegisteredPoStProof::spec_from_tag(tag) == Some(self) <==> tag == self.spec_tag(),
    {
        lemma_tags_distinct();
    }
}

} // verus!
