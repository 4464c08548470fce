use vstd::prelude::*;

verus! {

/// A country as listed for selection.
#[derive(Debug, Clone)]
pub struct CountryInfo {
    pub country_code: String,
    pub country_name: String,
    pub locality_count: u32,
}

/// Country codes and names, as an injected read-only lookup.
pub struct CountryService {
    country_codes: Vec<(String, String)>,
}

pub open spec fn entry_views(entries: Seq<(String, String)>) -> Seq<(Seq<char>, Seq<char>)> {
    entries.map_values(|e: (String, String)| (e.0@, e.1@))
}

pub open spec fn codes_of(entries: Seq<(Seq<char>, Seq<char>)>) -> Seq<Seq<char>> {
    entries.map_values(|e: (Seq<char>, Seq<char>)| e.0)
}

/// The targets that the lookup knows, in the order given.
pub open spec fn known_targets(targets: Seq<Seq<char>>, codes: Seq<Seq<char>>) -> Seq<Seq<char>> {
    targets.filter(|t: Seq<char>| codes.contains(t))
}

/// Whether a target list asks for every country: it is empty or holds `ALL`.
pub open spec fn wants_all(targets: Seq<Seq<char>>) -> bool {
    targets.len() == 0 || targets.contains("ALL"@)
}

fn push_entry(codes: &mut Vec<(String, String)>, code: &str, name: &str)
    ensures
        entry_views(final(codes)@) == entry_views(old(codes)@).push((code@, name@)),
        final(codes)@.len() == old(codes)@.len() + 1,
{
    let ghost before = entry_views(codes@);
    codes.push((String::from_str(code), String::from_str(name)));
    proof {
        assert(entry_views(codes@) =~= before.push((code@, name@)));
    }
}

/// The built-in table of country codes and names.
pub fn create_default_country_codes() -> (r: Vec<(String, String)>)
    ensures
        r@.len() == 249,
{
    let mut codes: Vec<(String, String)> = Vec::new();
    push_entry(&mut codes, "AD", "Andorra");
    push_entry(&mut codes, "AE", "United Arab Emirates");
    push_entry(&mut codes, "AF", "Afghanistan");
    push_entry(&mut codes, "AG", "Antigua and Barbuda");
    push_entry(&mut codes, "AI", "Anguilla");
    push_entry(&mut codes, "AL", "Albania");
    push_entry(&mut codes, "AM", "Armenia");
    push_entry(&mut codes, "AO", "Angola");
    push_entry(&mut codes, "AQ", "Antarctica");
    push_entry(&mut codes, "AR", "Argentina");
    push_entry(&mut codes, "AS", "American Samoa");
    push_entry(&mut codes, "AT", "Austria");
    push_entry(&mut codes, "AU", "Australia");
    push_entry(&mut codes, "AW", "Aruba");
    push_entry(&mut codes, "AX", "Aland Islands");
    push_entry(&mut codes, "AZ", "Azerbaijan");
    push_entry(&mut codes, "BA", "Bosnia and Herzegovina");
    push_entry(&mut codes, "BB", "Barbados");
    push_entry(&mut codes, "BD", "Bangladesh");
    push_entry(&mut codes, "BE", "Belgium");
    push_entry(&mut codes, "BF", "Burkina Faso");
    push_entry(&mut codes, "BG", "Bulgaria");
    push_entry(&mut codes, "BH", "Bahrain");
    push_entry(&mut codes, "BI", "Burundi");
    push_entry(&mut codes, "BJ", "Benin");
    push_entry(&mut codes, "BL", "Saint Barthelemy");
    push_entry(&mut codes, "BM", "Bermuda");
    push_entry(&mut codes, "BN", "Brunei Darussalam");
    push_entry(&mut codes, "BO", "Bolivia");
    push_entry(&mut codes, "BQ", "Bonaire, Sint Eustatius and Saba");
    push_entry(&mut codes, "BR", "Brazil");
    push_entry(&mut codes, "BS", "Bahamas");
    push_entry(&mut codes, "BT", "Bhutan");
    push_entry(&mut codes, "BV", "Bouvet Island");
    push_entry(&mut codes, "BW", "Botswana");
    push_entry(&mut codes, "BY", "Belarus");
    push_entry(&mut codes, "BZ", "Belize");
    push_entry(&mut codes, "CA", "Canada");
    push_entry(&mut codes, "CC", "Cocos (Keeling) Islands");
    push_entry(&mut codes, "CD", "Congo, Democratic Republic");
    push_entry(&mut codes, "CF", "Central African Republic");
    push_entry(&mut codes, "CG", "Congo");
    push_entry(&mut codes, "CH", "Switzerland");
    push_entry(&mut codes, "CI", "Cote D'Ivoire");
    push_entry(&mut codes, "CK", "Cook Islands");
    push_entry(&mut codes, "CL", "Chile");
    push_entry(&mut codes, "CM", "Cameroon");
    push_entry(&mut codes, "CN", "China");
    push_entry(&mut codes, "CO", "Colombia");
    push_entry(&mut codes, "CR", "Costa Rica");
    push_entry(&mut codes, "CU", "Cuba");
    push_entry(&mut codes, "CV", "Cape Verde");
    push_entry(&mut codes, "CW", "Curacao");
    push_entry(&mut codes, "CX", "Christmas Island");
    push_entry(&mut codes, "CY", "Cyprus");
    push_entry(&mut codes, "CZ", "Czech Republic");
    push_entry(&mut codes, "DE", "Germany");
    push_entry(&mut codes, "DJ", "Djibouti");
    push_entry(&mut codes, "DK", "Denmark");
    push_entry(&mut codes, "DM", "Dominica");
    push_entry(&mut codes, "DO", "Dominican Republic");
    push_entry(&mut codes, "DZ", "Algeria");
    push_entry(&mut codes, "EC", "Ecuador");
    push_entry(&mut codes, "EE", "Estonia");
    push_entry(&mut codes, "EG", "Egypt");
    push_entry(&mut codes, "EH", "Western Sahara");
    push_entry(&mut codes, "ER", "Eritrea");
    push_entry(&mut codes, "ES", "Spain");
    push_entry(&mut codes, "ET", "Ethiopia");
    push_entry(&mut codes, "FI", "Finland");
    push_entry(&mut codes, "FJ", "Fiji");
    push_entry(&mut codes, "FK", "Falkland Islands (Malvinas)");
    push_entry(&mut codes, "FM", "Micronesia, Federated States Of");
    push_entry(&mut codes, "FO", "Faroe Islands");
    push_entry(&mut codes, "FR", "France");
    push_entry(&mut codes, "GA", "Gabon");
    push_entry(&mut codes, "GB", "United Kingdom");
    push_entry(&mut codes, "GD", "Grenada");
    push_entry(&mut codes, "GE", "Georgia");
    push_entry(&mut codes, "GF", "French Guiana");
    push_entry(&mut codes, "GG", "Guernsey");
    push_entry(&mut codes, "GH", "Ghana");
    push_entry(&mut codes, "GI", "Gibraltar");
    push_entry(&mut codes, "GL", "Greenland");
    push_entry(&mut codes, "GM", "Gambia");
    push_entry(&mut codes, "GN", "Guinea");
    push_entry(&mut codes, "GP", "Guadeloupe");
    push_entry(&mut codes, "GQ", "Equatorial Guinea");
    push_entry(&mut codes, "GR", "Greece");
    push_entry(&mut codes, "GS", "South Georgia and the South Sandwich Islands");
    push_entry(&mut codes, "GT", "Guatemala");
    push_entry(&mut codes, "GU", "Guam");
    push_entry(&mut codes, "GW", "Guinea-Bissau");
    push_entry(&mut codes, "GY", "Guyana");
    push_entry(&mut codes, "HK", "Hong Kong");
    push_entry(&mut codes, "HM", "Heard Island and Mcdonald Islands");
    push_entry(&mut codes, "HN", "Honduras");
    push_entry(&mut codes, "HR", "Croatia");
    push_entry(&mut codes, "HT", "Haiti");
    push_entry(&mut codes, "HU", "Hungary");
    push_entry(&mut codes, "ID", "Indonesia");
    push_entry(&mut codes, "IE", "Ireland");
    push_entry(&mut codes, "IL", "Israel");
    push_entry(&mut codes, "IM", "Isle of Man");
    push_entry(&mut codes, "IN", "India");
    push_entry(&mut codes, "IO", "British Indian Ocean Territory");
    push_entry(&mut codes, "IQ", "Iraq");
    push_entry(&mut codes, "IR", "Iran, Islamic Republic Of");
    push_entry(&mut codes, "IS", "Iceland");
    push_entry(&mut codes, "IT", "Italy");
    push_entry(&mut codes, "JE", "Jersey");
    push_entry(&mut codes, "JM", "Jamaica");
    push_entry(&mut codes, "JO", "Jordan");
    push_entry(&mut codes, "JP", "Japan");
    push_entry(&mut codes, "KE", "Kenya");
    push_entry(&mut codes, "KG", "Kyrgyzstan");
    push_entry(&mut codes, "KH", "Cambodia");
    push_entry(&mut codes, "KI", "Kiribati");
    push_entry(&mut codes, "KM", "Comoros");
    push_entry(&mut codes, "KN", "Saint Kitts and Nevis");
    push_entry(&mut codes, "KP", "North Korea");
    push_entry(&mut codes, "KR", "South Korea");
    push_entry(&mut codes, "KW", "Kuwait");
    push_entry(&mut codes, "KY", "Cayman Islands");
    push_entry(&mut codes, "KZ", "Kazakhstan");
    push_entry(&mut codes, "LA", "Lao People's Democratic Republic");
    push_entry(&mut codes, "LB", "Lebanon");
    push_entry(&mut codes, "LC", "Saint Lucia");
    push_entry(&mut codes, "LI", "Liechtenstein");
    push_entry(&mut codes, "LK", "Sri Lanka");
    push_entry(&mut codes, "LR", "Liberia");
    push_entry(&mut codes, "LS", "Lesotho");
    push_entry(&mut codes, "LT", "Lithuania");
    push_entry(&mut codes, "LU", "Luxembourg");
    push_entry(&mut codes, "LV", "Latvia");
    push_entry(&mut codes, "LY", "Libyan Arab Jamahiriya");
    push_entry(&mut codes, "MA", "Morocco");
    push_entry(&mut codes, "MC", "Monaco");
    push_entry(&mut codes, "MD", "Moldova");
    push_entry(&mut codes, "ME", "Montenegro");
    push_entry(&mut codes, "MF", "Saint Martin");
    push_entry(&mut codes, "MG", "Madagascar");
    push_entry(&mut codes, "MH", "Marshall Islands");
    push_entry(&mut codes, "MK", "Macedonia");
    push_entry(&mut codes, "ML", "Mali");
    push_entry(&mut codes, "MM", "Myanmar");
    push_entry(&mut codes, "MN", "Mongolia");
    push_entry(&mut codes, "MO", "Macao");
    push_entry(&mut codes, "MP", "Northern Mariana Islands");
    push_entry(&mut codes, "MQ", "Martinique");
    push_entry(&mut codes, "MR", "Mauritania");
    push_entry(&mut codes, "MS", "Montserrat");
    push_entry(&mut codes, "MT", "Malta");
    push_entry(&mut codes, "MU", "Mauritius");
    push_entry(&mut codes, "MV", "Maldives");
    push_entry(&mut codes, "MW", "Malawi");
    push_entry(&mut codes, "MX", "Mexico");
    push_entry(&mut codes, "MY", "Malaysia");
    push_entry(&mut codes, "MZ", "Mozambique");
    push_entry(&mut codes, "NA", "Namibia");
    push_entry(&mut codes, "NC", "New Caledonia");
    push_entry(&mut codes, "NE", "Niger");
    push_entry(&mut codes, "NF", "Norfolk Island");
    push_entry(&mut codes, "NG", "Nigeria");
    push_entry(&mut codes, "NI", "Nicaragua");
    push_entry(&mut codes, "NL", "Netherlands");
    push_entry(&mut codes, "NO", "Norway");
    push_entry(&mut codes, "NP", "Nepal");
    push_entry(&mut codes, "NR", "Nauru");
    push_entry(&mut codes, "NU", "Niue");
    push_entry(&mut codes, "NZ", "New Zealand");
    push_entry(&mut codes, "OM", "Oman");
    push_entry(&mut codes, "PA", "Panama");
    push_entry(&mut codes, "PE", "Peru");
    push_entry(&mut codes, "PF", "French Polynesia");
    push_entry(&mut codes, "PG", "Papua New Guinea");
    push_entry(&mut codes, "PH", "Philippines");
    push_entry(&mut codes, "PK", "Pakistan");
    push_entry(&mut codes, "PL", "Poland");
    push_entry(&mut codes, "PM", "Saint Pierre and Miquelon");
    push_entry(&mut codes, "PN", "Pitcairn");
    push_entry(&mut codes, "PR", "Puerto Rico");
    push_entry(&mut codes, "PS", "Palestinian Territory, Occupied");
    push_entry(&mut codes, "PT", "Portugal");
    push_entry(&mut codes, "PW", "Palau");
    push_entry(&mut codes, "PY", "Paraguay");
    push_entry(&mut codes, "QA", "Qatar");
    push_entry(&mut codes, "RE", "Reunion");
    push_entry(&mut codes, "RO", "Romania");
    push_entry(&mut codes, "RS", "Serbia");
    push_entry(&mut codes, "RU", "Russian Federation");
    push_entry(&mut codes, "RW", "Rwanda");
    push_entry(&mut codes, "SA", "Saudi Arabia");
    push_entry(&mut codes, "SB", "Solomon Islands");
    push_entry(&mut codes, "SC", "Seychelles");
    push_entry(&mut codes, "SD", "Sudan");
    push_entry(&mut codes, "SE", "Sweden");
    push_entry(&mut codes, "SG", "Singapore");
    push_entry(&mut codes, "SH", "Saint Helena");
    push_entry(&mut codes, "SI", "Slovenia");
    push_entry(&mut codes, "SJ", "Svalbard and Jan Mayen");
    push_entry(&mut codes, "SK", "Slovakia");
    push_entry(&mut codes, "SL", "Sierra Leone");
    push_entry(&mut codes, "SM", "San Marino");
    push_entry(&mut codes, "SN", "Senegal");
    push_entry(&mut codes, "SO", "Somalia");
    push_entry(&mut codes, "SR", "Suriname");
    push_entry(&mut codes, "SS", "South Sudan");
    push_entry(&mut codes, "ST", "Sao Tome and Principe");
    push_entry(&mut codes, "SV", "El Salvador");
    push_entry(&mut codes, "SX", "Sint Maarten (Dutch part)");
    push_entry(&mut codes, "SY", "Syrian Arab Republic");
    push_entry(&mut codes, "SZ", "Swaziland");
    push_entry(&mut codes, "TC", "Turks and Caicos Islands");
    push_entry(&mut codes, "TD", "Chad");
    push_entry(&mut codes, "TF", "French Southern Territories");
    push_entry(&mut codes, "TG", "Togo");
    push_entry(&mut codes, "TH", "Thailand");
    push_entry(&mut codes, "TJ", "Tajikistan");
    push_entry(&mut codes, "TK", "Tokelau");
    push_entry(&mut codes, "TL", "Timor-Leste");
    push_entry(&mut codes, "TM", "Turkmenistan");
    push_entry(&mut codes, "TN", "Tunisia");
    push_entry(&mut codes, "TO", "Tonga");
    push_entry(&mut codes, "TR", "Turkey");
    push_entry(&mut codes, "TT", "Trinidad and Tobago");
    push_entry(&mut codes, "TV", "Tuvalu");
    push_entry(&mut codes, "TW", "Taiwan");
    push_entry(&mut codes, "TZ", "Tanzania, United Republic of");
    push_entry(&mut codes, "UA", "Ukraine");
    push_entry(&mut codes, "UG", "Uganda");
    push_entry(&mut codes, "UM", "United States Minor Outlying Islands");
    push_entry(&mut codes, "US", "United States");
    push_entry(&mut codes, "UY", "Uruguay");
    push_entry(&mut codes, "UZ", "Uzbekistan");
    push_entry(&mut codes, "VA", "Holy See (Vatican City State)");
    push_entry(&mut codes, "VC", "Saint Vincent and the Grenadines");
    push_entry(&mut codes, "VE", "Venezuela");
    push_entry(&mut codes, "VG", "Virgin Islands, British");
    push_entry(&mut codes, "VI", "Virgin Islands, U.S.");
    push_entry(&mut codes, "VN", "Vietnam");
    push_entry(&mut codes, "VU", "Vanuatu");
    push_entry(&mut codes, "WF", "Wallis and Futuna");
    push_entry(&mut codes, "WS", "Samoa");
    push_entry(&mut codes, "YE", "Yemen");
    push_entry(&mut codes, "YT", "Mayotte");
    push_entry(&mut codes, "ZA", "South Africa");
    push_entry(&mut codes, "ZM", "Zambia");
    push_entry(&mut codes, "ZW", "Zimbabwe");
    proof {
        assert(entry_views(codes@).len() == codes@.len());
    }
    codes
}

impl CountryService {
    pub closed spec fn entries(&self) -> Seq<(Seq<char>, Seq<char>)> {
        entry_views(self.country_codes@)
    }

    /// A lookup over the built-in table.
    pub fn new() -> (r: CountryService)
        ensures
            r.entries().len() == 249,
    {
        CountryService { country_codes: create_default_country_codes() }
    }

    /// A lookup over the given (code, name) entries.
    pub fn with_codes(country_codes: Vec<(String, String)>) -> (r: CountryService)
        ensures
            r.entries() == entry_views(country_codes@),
    {
        CountryService { country_codes }
    }

    fn knows(&self, code: &String) -> (r: bool)
        ensures
            r == codes_of(self.entries()).contains(code@),
    {
        let mut i: usize = 0;
        while i < self.country_codes.len()
            invariant
                i <= self.country_codes@.len(),
                forall|j: int| 0 <= j < i ==> codes_of(self.entries())[j] != code@,
            decreases self.country_codes@.len() - i,
        {
            if self.country_codes[i].0 == *code {
                proof {
                    assert(codes_of(self.entries())[i as int] == code@);
                }
                return true;
            }
            i = i + 1;
        }
        false
    }

    /// Every known code when the targets are empty or hold `ALL`; else the targets that
    /// the lookup knows, in the order given.
    pub fn get_countries_to_process(&self, target_countries: &Vec<String>) -> (r: Vec<String>)
        ensures
            wants_all(target_countries.deep_view()) ==> r.deep_view() == codes_of(self.entries()),
            !wants_all(target_countries.deep_view()) ==> r.deep_view() == known_targets(
                target_countries.deep_view(),
                codes_of(self.entries()),
            ),
    {
        let ghost targets = target_countries.deep_view();
        let all = String::from_str("ALL");
        proof {
            reveal_strlit("ALL");
        }
        let mut any_all = false;
        let mut i: usize = 0;
        while i < target_countries.len()
            invariant
                i <= target_countries@.len(),
                targets == target_countries.deep_view(),
                all@ == "ALL"@,
                any_all <==> targets.take(i as int).contains("ALL"@),
            decreases target_countries@.len() - i,
        {
            let ghost cur = targets.take(i + 1);
            let ghost prev = targets.take(i as int);
            proof {
                assert(cur =~= prev.push(targets[i as int]));
                assert(targets[i as int] == target_countries@[i as int]@);
            }
            if target_countries[i] == all {
                any_all = true;
                proof {
                    assert(cur[i as int] == "ALL"@);
                }
            }
            proof {
                if prev.contains("ALL"@) {
                    let j = choose|j: int| 0 <= j < prev.len() && prev[j] == "ALL"@;
                    assert(cur[j] == "ALL"@);
                }
                if cur.contains("ALL"@) {
                    let j = choose|j: int| 0 <= j < cur.len() && cur[j] == "ALL"@;
                    if j < i {
                        assert(prev[j] == "ALL"@);
                    }
                }
            }
            i = i + 1;
        }
        proof {
            assert(targets.take(i as int) =~= targets);
        }
        if target_countries.len() == 0 || any_all {
            let mut out: Vec<String> = Vec::new();
            let mut k: usize = 0;
            while k < self.country_codes.len()
                invariant
                    k <= self.country_codes@.len(),
                    out.deep_view() == codes_of(self.entries()).take(k as int),
                decreases self.country_codes@.len() - k,
            {
                let ghost before = out.deep_view();
                out.push(self.country_codes[k].0.clone());
                proof {
                    assert(out.deep_view() =~= before.push(self.country_codes@[k as int].0@));
                    assert(codes_of(self.entries()).take(k + 1) =~= codes_of(self.entries()).take(
                        k as int,
                    ).push(self.country_codes@[k as int].0@));
                }
                k = k + 1;
            }
            proof {
                assert(codes_of(self.entries()).take(k as int) =~= codes_of(self.entries()));
            }
            out
        } else {
            let ghost codes = codes_of(self.entries());
            let mut out: Vec<String> = Vec::new();
            let mut k: usize = 0;
            while k < target_countries.len()
                invariant
                    k <= target_countries@.len(),
                    targets == target_countries.deep_view(),
                    codes == codes_of(self.entries()),
                    out.deep_view() == known_targets(targets.take(k as int), codes),
                decreases target_countries@.len() - k,
            {
                proof {
                    assert(targets.take(k + 1).drop_last() =~= targets.take(k as int));
                    reveal(Seq::filter);
                }
                let ghost before = out.deep_view();
                if self.knows(&target_countries[k]) {
                    out.push(target_countries[k].clone());
                    proof {
                        assert(out.deep_view() =~= before.push(target_countries@[k as int]@));
                    }
                }
                k = k + 1;
            }
            proof {
                assert(targets.take(k as int) =~= targets);
            }
            out
        }
    }

    /// The name of a country code, if the lookup knows it.
    pub fn get_country_name(&self, country_code: &str) -> (r: Option<&String>)
        ensures
            r is Some <==> codes_of(self.entries()).contains(country_code@),
            r is Some ==> exists|i: int|
                0 <= i < self.entries().len() && self.entries()[i].0 == country_code@
                    && self.entries()[i].1 == r->Some_0@,
    {
        let code = String::from_str(country_code);
        let mut i: usize = 0;
        while i < self.country_codes.len()
            invariant
                i <= self.country_codes@.len(),
                code@ == country_code@,
                forall|j: int| 0 <= j < i ==> codes_of(self.entries())[j] != country_code@,
            decreases self.country_codes@.len() - i,
        {
            if self.country_codes[i].0 == code {
                proof {
                    assert(codes_of(self.entries())[i as int] == country_code@);
                }
                return Some(&self.country_codes[i].1);
            }
            i = i + 1;
        }
        None
    }

    /// Every country of the lookup, with a region count of zero still to be filled in.
    pub fn get_all_countries(&self) -> (r: Vec<CountryInfo>)
        ensures
            r@.len() == self.entries().len(),
            forall|i: int|
                0 <= i < r@.len() ==> (#[trigger] r@[i]).country_code@ == self.entries()[i].0
                    && r@[i].country_name@ == self.entries()[i].1 && r@[i].locality_count == 0,
    {
        let mut out: Vec<CountryInfo> = Vec::new();
        let mut i: usize = 0;
        while i < self.country_codes.len()
            invariant
                i <= self.country_codes@.len(),
                out@.len() == i,
                forall|j: int|
                    0 <= j < i ==> (#[trigger] out@[j]).country_code@ == self.entries()[j].0
                        && out@[j].country_name@ == self.entries()[j].1 && out@[j].locality_count
                        == 0,
            decreases self.country_codes@.len() - i,
        {
            let e = &self.country_codes[i];
            out.push(
                CountryInfo {
                    country_code: e.0.clone(),
                    country_name: e.1.clone(),
                    locality_count: 0,
                },
            );
            i = i + 1;
        }
        out
    }
}

/// The country lookup used by a run.
pub fn initialize_country_service() -> (r: CountryService)
    ensures
        r.entries().len() == 249,
{
    CountryService::new()
}

} // verus!
