use vstd::prelude::*;

use crate::state::{Class, Rarity};

verus! {

/// Location of the artwork of a position of `class` with `rarity` (or of one
/// whose rarity is not drawn yet).
pub open spec fn uri_for(class: Class, rarity: Option<Rarity>) -> &'static str {
    match class {
        Class::Ruby => match rarity {
            Some(Rarity::Common) => "https://arweave.net/8kXpslAhB2gHYd0wg31336X4dFGKt8xLrn_cElh5fkc",
            Some(Rarity::Uncommon) => "https://arweave.net/bJk5hH6wSAC1maI-lxafSGccOk5HjfAPoUI2WIJiTkA",
            Some(Rarity::Rare) => "https://arweave.net/P-lBqcffiwjGETt6xjgR67JkxBTaYdHElxL7wh23_xk",
            Some(Rarity::Exalted) => "https://arweave.net/t0QSJrBkDViMZ1l2UBD-zxSCvdUFpkygSOwLChDW6S4",
            Some(Rarity::Mythic) => "https://arweave.net/thnK3i2c3CXGLNv2dp41Qohj8tPPSBmRDqY2kNd6SzY",
            None => "https://arweave.net/CHqG0ntgg2GeSCNmZnFGGrLsQExwnnaOuUg5S4GpmpI",
        },
        Class::Diamond => match rarity {
            Some(Rarity::Common) => "https://arweave.net/TyZgMdpiVVOgeR7pBMbdxBoyhYMk7sTZNUcXwvx1wHg",
            Some(Rarity::Uncommon) => "https://arweave.net/rzEYBGB_qnQF3jYZOBNkgmSJj4__OyzKyN9uSYa4jjo",
            Some(Rarity::Rare) => "https://arweave.net/bzCaE6nqhdiC5Jjy6kY7W6kNmuDYjf_Hm-42BrK4orM",
            Some(Rarity::Exalted) => "https://arweave.net/AjNtC0wQQOoAJfnZ9ztddD-H2g12YvlgiDm560zgsVA",
            Some(Rarity::Mythic) => "https://arweave.net/pF61d-hw1dO5gePxho8GuiZTvZzdUe26WqEclEKPMdY",
            None => "https://arweave.net/lYILyALpyS8QXb0GF-HkGZEgJhv8Z89JPHO5CDzxxTc",
        },
        Class::Sapphire => match rarity {
            Some(Rarity::Common) => "https://arweave.net/HNiKSWc-TpoVPvrH-JvOXDNdonvIkA-2bnQ_12k_eTM",
            Some(Rarity::Uncommon) => "https://arweave.net/Iq0okiWhRU8six9FyzuXQeD0rQTjMVqO7TZrB82qM-g",
            Some(Rarity::Rare) => "https://arweave.net/KVGyp00fmt3nunXqQlHNqHKmUdqJ9awI8BUbjCQrRnU",
            Some(Rarity::Exalted) => "https://arweave.net/02-BFFMcxhekHdD7j47SmrxIn9G51RYOmNp9fcWdeiM",
            Some(Rarity::Mythic) => "https://arweave.net/zd0ukdJg10LFPXQB1vcC2FcjKDB84vw4pHmkPgph_jQ",
            None => "https://arweave.net/zJoSGOkI09gUKZ7FFvsrYsx8oLZ1Bmt0A_YMLw4AwTE",
        },
        Class::Emerald => match rarity {
            Some(Rarity::Common) => "https://arweave.net/J3pvuY3pXFwcFAaqwDRimm-sF3QfnJ0GOOCATjzT6is",
            Some(Rarity::Uncommon) => "https://arweave.net/Qq0hyEM11J93Am_PKbtNmvT4j5eBolri91mkTn7eCXQ",
            Some(Rarity::Rare) => "https://arweave.net/DsQ2isTGvNnTRLuh4CUvLzA4tCoEVtsM0FDnycsQzME",
            Some(Rarity::Exalted) => "https://arweave.net/FDP8E_oDoaf-k1gRXNFY_Fv7EkuaAy4VEIMbUNTR19s",
            Some(Rarity::Mythic) => "https://arweave.net/sjpT7pZFGaVGB_TcHhKbWX8ZJJAHE1suXpgVOqx0cfU",
            None => "https://arweave.net/aAjZuvv9LUiqOcodbRNnlt-Ln9wgcsFPcuOF9BZXBxU",
        },
        Class::Serendibite => match rarity {
            Some(Rarity::Common) => "https://arweave.net/Z5YgxSVj4TdSijJcU2FHo55P8SZTbogRCx6YA07xBq0",
            Some(Rarity::Uncommon) => "https://arweave.net/q4m1nQZs0WCzEXICiRxZB8OsXlwaQaNq6ZO9rnafhs4",
            Some(Rarity::Rare) => "https://arweave.net/HKO2zwzA78V2tJvteyf4kCc-mG8Qt-q7sH9lS_NNz6E",
            Some(Rarity::Exalted) => "https://arweave.net/P-6Xv_KuTkusbUQ1xL38ROagslDLmBron1OVU114sKo",
            Some(Rarity::Mythic) => "https://arweave.net/ibm7p1hkaBXtFM5WGK2uZ8hXtgBJucXA9iObBweMWZI",
            None => "https://arweave.net/jNf8mPzhfwsQM1HQ6xSDLROt0uf7fRMz7_3N5zJOFSk",
        },
        Class::Benitoite => match rarity {
            Some(Rarity::Common) => "https://arweave.net/VXmsbPgGyiumbiiQClrGXC8Sp2ezrwRP-sKq5yv71b0",
            Some(Rarity::Uncommon) => "https://arweave.net/L13aXTG3DgPjb5r4-cCKRaKEgprLRv5sqtkxktRZjYg",
            Some(Rarity::Rare) => "https://arweave.net/4Xf3L2acjFsykdlXewAZkn4nQS7xq6kLAgFxDMSIBzg",
            Some(Rarity::Exalted) => "https://arweave.net/7a8tB2RrKj7blya4s9H-8SXarbY5x-5xdarSq05jyfA",
            Some(Rarity::Mythic) => "https://arweave.net/Z6ScSn8y5ZJ2U9tzzCkEVUQFcTSIZN83pczJY0Kws-k",
            None => "https://arweave.net/i-0Sj0OhvFw6003cR0PA0PAmQHXy3kww1E_kaL_EtmY",
        },
    }
}

pub fn get_uri(class: Class, rarity: Option<Rarity>) -> (r: &'static str)
    ensures
        r == uri_for(class, rarity),
{
    match class {
        Class::Ruby => match rarity {
            Some(Rarity::Common) => "https://arweave.net/8kXpslAhB2gHYd0wg31336X4dFGKt8xLrn_cElh5fkc",
            Some(Rarity::Uncommon) => "https://arweave.net/bJk5hH6wSAC1maI-lxafSGccOk5HjfAPoUI2WIJiTkA",
            Some(Rarity::Rare) => "https://arweave.net/P-lBqcffiwjGETt6xjgR67JkxBTaYdHElxL7wh23_xk",
            Some(Rarity::Exalted) => "https://arweave.net/t0QSJrBkDViMZ1l2UBD-zxSCvdUFpkygSOwLChDW6S4",
            Some(Rarity::Mythic) => "https://arweave.net/thnK3i2c3CXGLNv2dp41Qohj8tPPSBmRDqY2kNd6SzY",
            None => "https://arweave.net/CHqG0ntgg2GeSCNmZnFGGrLsQExwnnaOuUg5S4GpmpI",
        },
        Class::Diamond => match rarity {
            Some(Rarity::Common) => "https://arweave.net/TyZgMdpiVVOgeR7pBMbdxBoyhYMk7sTZNUcXwvx1wHg",
            Some(Rarity::Uncommon) => "https://arweave.net/rzEYBGB_qnQF3jYZOBNkgmSJj4__OyzKyN9uSYa4jjo",
            Some(Rarity::Rare) => "https://arweave.net/bzCaE6nqhdiC5Jjy6kY7W6kNmuDYjf_Hm-42BrK4orM",
            Some(Rarity::Exalted) => "https://arweave.net/AjNtC0wQQOoAJfnZ9ztddD-H2g12YvlgiDm560zgsVA",
            Some(Rarity::Mythic) => "https://arweave.net/pF61d-hw1dO5gePxho8GuiZTvZzdUe26WqEclEKPMdY",
            None => "https://arweave.net/lYILyALpyS8QXb0GF-HkGZEgJhv8Z89JPHO5CDzxxTc",
        },
        Class::Sapphire => match rarity {
            Some(Rarity::Common) => "https://arweave.net/HNiKSWc-TpoVPvrH-JvOXDNdonvIkA-2bnQ_12k_eTM",
            Some(Rarity::Uncommon) => "https://arweave.net/Iq0okiWhRU8six9FyzuXQeD0rQTjMVqO7TZrB82qM-g",
            Some(Rarity::Rare) => "https://arweave.net/KVGyp00fmt3nunXqQlHNqHKmUdqJ9awI8BUbjCQrRnU",
            Some(Rarity::Exalted) => "https://arweave.net/02-BFFMcxhekHdD7j47SmrxIn9G51RYOmNp9fcWdeiM",
            Some(Rarity::Mythic) => "https://arweave.net/zd0ukdJg10LFPXQB1vcC2FcjKDB84vw4pHmkPgph_jQ",
            None => "https://arweave.net/zJoSGOkI09gUKZ7FFvsrYsx8oLZ1Bmt0A_YMLw4AwTE",
        },
        Class::Emerald => match rarity {
            Some(Rarity::Common) => "https://arweave.net/J3pvuY3pXFwcFAaqwDRimm-sF3QfnJ0GOOCATjzT6is",
            Some(Rarity::Uncommon) => "https://arweave.net/Qq0hyEM11J93Am_PKbtNmvT4j5eBolri91mkTn7eCXQ",
            Some(Rarity::Rare) => "https://arweave.net/DsQ2isTGvNnTRLuh4CUvLzA4tCoEVtsM0FDnycsQzME",
            Some(Rarity::Exalted) => "https://arweave.net/FDP8E_oDoaf-k1gRXNFY_Fv7EkuaAy4VEIMbUNTR19s",
            Some(Rarity::Mythic) => "https://arweave.net/sjpT7pZFGaVGB_TcHhKbWX8ZJJAHE1suXpgVOqx0cfU",
            None => "https://arweave.net/aAjZuvv9LUiqOcodbRNnlt-Ln9wgcsFPcuOF9BZXBxU",
        },
        Class::Serendibite => match rarity {
            Some(Rarity::Common) => "https://arweave.net/Z5YgxSVj4TdSijJcU2FHo55P8SZTbogRCx6YA07xBq0",
            Some(Rarity::Uncommon) => "https://arweave.net/q4m1nQZs0WCzEXICiRxZB8OsXlwaQaNq6ZO9rnafhs4",
            Some(Rarity::Rare) => "https://arweave.net/HKO2zwzA78V2tJvteyf4kCc-mG8Qt-q7sH9lS_NNz6E",
            Some(Rarity::Exalted) => "https://arweave.net/P-6Xv_KuTkusbUQ1xL38ROagslDLmBron1OVU114sKo",
            Some(Rarity::Mythic) => "https://arweave.net/ibm7p1hkaBXtFM5WGK2uZ8hXtgBJucXA9iObBweMWZI",
            None => "https://arweave.net/jNf8mPzhfwsQM1HQ6xSDLROt0uf7fRMz7_3N5zJOFSk",
        },
        Class::Benitoite => match rarity {
            Some(Rarity::Common) => "https://arweave.net/VXmsbPgGyiumbiiQClrGXC8Sp2ezrwRP-sKq5yv71b0",
            Some(Rarity::Uncommon) => "https://arweave.net/L13aXTG3DgPjb5r4-cCKRaKEgprLRv5sqtkxktRZjYg",
            Some(Rarity::Rare) => "https://arweave.net/4Xf3L2acjFsykdlXewAZkn4nQS7xq6kLAgFxDMSIBzg",
            Some(Rarity::Exalted) => "https://arweave.net/7a8tB2RrKj7blya4s9H-8SXarbY5x-5xdarSq05jyfA",
            Some(Rarity::Mythic) => "https://arweave.net/Z6ScSn8y5ZJ2U9tzzCkEVUQFcTSIZN83pczJY0Kws-k",
            None => "https://arweave.net/i-0Sj0OhvFw6003cR0PA0PAmQHXy3kww1E_kaL_EtmY",
        },
    }
}

/// Rarity drawn for `class` from the value `v`: each class has its own
/// thresholds, and larger values give more common rarities.
pub open spec fn rarity_for(class: Class, v: u64) -> Rarity {
    match class {
        Class::Ruby => if v >= 9000 {
            Rarity::Common
        } else if v >= 5000 {
            Rarity::Uncommon
        } else if v >= 1500 {
            Rarity::Rare
        } else if v >= 500 {
            Rarity::Exalted
        } else {
            Rarity::Mythic
        },
        Class::Diamond => if v >= 8500 {
            Rarity::Common
        } else if v >= 3000 {
            Rarity::Uncommon
        } else if v >= 900 {
            Rarity::Rare
        } else if v >= 200 {
            Rarity::Exalted
        } else {
            Rarity::Mythic
        },
        Class::Sapphire => if v >= 8000 {
            Rarity::Common
        } else if v >= 2000 {
            Rarity::Uncommon
        } else if v >= 650 {
            Rarity::Rare
        } else if v >= 150 {
            Rarity::Exalted
        } else {
            Rarity::Mythic
        },
        Class::Emerald => if v >= 5000 {
            Rarity::Common
        } else if v >= 1070 {
            Rarity::Uncommon
        } else if v >= 270 {
            Rarity::Rare
        } else if v >= 70 {
            Rarity::Exalted
        } else {
            Rarity::Mythic
        },
        Class::Serendibite => if v >= 3880 {
            Rarity::Common
        } else if v >= 880 {
            Rarity::Uncommon
        } else if v >= 180 {
            Rarity::Rare
        } else if v >= 30 {
            Rarity::Exalted
        } else {
            Rarity::Mythic
        },
        Class::Benitoite => if v >= 8000 {
            Rarity::Common
        } else if v >= 6000 {
            Rarity::Uncommon
        } else if v >= 4000 {
            Rarity::Rare
        } else if v >= 2000 {
            Rarity::Exalted
        } else {
            Rarity::Mythic
        },
    }
}

impl Class {
    pub fn get_rarity(self, random_value: u64) -> (r: Option<Rarity>)
        ensures
            r == Some(rarity_for(self, random_value)),
    {
        let class = self;
        let v = random_value;
        Some(
            match class {
                Class::Ruby => if v >= 9000 {
                    Rarity::Common
                } else if v >= 5000 {
                    Rarity::Uncommon
                } else if v >= 1500 {
                    Rarity::Rare
                } else if v >= 500 {
                    Rarity::Exalted
                } else {
                    Rarity::Mythic
                },
                Class::Diamond => if v >= 8500 {
                    Rarity::Common
                } else if v >= 3000 {
                    Rarity::Uncommon
                } else if v >= 900 {
                    Rarity::Rare
                } else if v >= 200 {
                    Rarity::Exalted
                } else {
                    Rarity::Mythic
                },
                Class::Sapphire => if v >= 8000 {
                    Rarity::Common
                } else if v >= 2000 {
                    Rarity::Uncommon
                } else if v >= 650 {
                    Rarity::Rare
                } else if v >= 150 {
                    Rarity::Exalted
                } else {
                    Rarity::Mythic
                },
                Class::Emerald => if v >= 5000 {
                    Rarity::Common
                } else if v >= 1070 {
                    Rarity::Uncommon
                } else if v >= 270 {
                    Rarity::Rare
                } else if v >= 70 {
                    Rarity::Exalted
                } else {
                    Rarity::Mythic
                },
                Class::Serendibite => if v >= 3880 {
                    Rarity::Common
                } else if v >= 880 {
                    Rarity::Uncommon
                } else if v >= 180 {
                    Rarity::Rare
                } else if v >= 30 {
                    Rarity::Exalted
                } else {
                    Rarity::Mythic
                },
                Class::Benitoite => if v >= 8000 {
                    Rarity::Common
                } else if v >= 6000 {
                    Rarity::Uncommon
                } else if v >= 4000 {
                    Rarity::Rare
                } else if v >= 2000 {
                    Rarity::Exalted
                } else {
                    Rarity::Mythic
                },
            },
        )
    }
}

} // verus!
