use vstd::prelude::*;
use crate::text::str_content_eq;

verus! {

pub open spec fn spec_is_general_category_value_part1(v: Seq<char>) -> bool {
    ||| v == "C"@
    ||| v == "Other"@
    ||| v == "Cc"@
    ||| v == "Control"@
    ||| v == "cntrl"@
    ||| v == "Cf"@
    ||| v == "Format"@
    ||| v == "Cn"@
    ||| v == "Unassigned"@
    ||| v == "Co"@
    ||| v == "Private_Use"@
    ||| v == "Cs"@
    ||| v == "Surrogate"@
    ||| v == "L"@
    ||| v == "Letter"@
    ||| v == "LC"@
    ||| v == "Cased_Letter"@
    ||| v == "Ll"@
    ||| v == "Lowercase_Letter"@
    ||| v == "Lm"@
    ||| v == "Modifier_Letter"@
    ||| v == "Lo"@
    ||| v == "Other_Letter"@
    ||| v == "Lt"@
    ||| v == "Titlecase_Letter"@
    ||| v == "Lu"@
    ||| v == "Uppercase_Letter"@
    ||| v == "M"@
    ||| v == "Mark"@
    ||| v == "Combining_Mark"@
    ||| v == "Mc"@
    ||| v == "Spacing_Mark"@
    ||| v == "Me"@
    ||| v == "Enclosing_Mark"@
    ||| v == "Mn"@
    ||| v == "Nonspacing_Mark"@
    ||| v == "N"@
    ||| v == "Number"@
    ||| v == "digit"@
    ||| v == "Nd"@
}

fn is_general_category_value_part1(v: &str) -> (r: bool)
    ensures
        r == spec_is_general_category_value_part1(v@),
{
    if str_content_eq(v, "C") {
        return true;
    }
    if str_content_eq(v, "Other") {
        return true;
    }
    if str_content_eq(v, "Cc") {
        return true;
    }
    if str_content_eq(v, "Control") {
        return true;
    }
    if str_content_eq(v, "cntrl") {
        return true;
    }
    if str_content_eq(v, "Cf") {
        return true;
    }
    if str_content_eq(v, "Format") {
        return true;
    }
    if str_content_eq(v, "Cn") {
        return true;
    }
    if str_content_eq(v, "Unassigned") {
        return true;
    }
    if str_content_eq(v, "Co") {
        return true;
    }
    if str_content_eq(v, "Private_Use") {
        return true;
    }
    if str_content_eq(v, "Cs") {
        return true;
    }
    if str_content_eq(v, "Surrogate") {
        return true;
    }
    if str_content_eq(v, "L") {
        return true;
    }
    if str_content_eq(v, "Letter") {
        return true;
    }
    if str_content_eq(v, "LC") {
        return true;
    }
    if str_content_eq(v, "Cased_Letter") {
        return true;
    }
    if str_content_eq(v, "Ll") {
        return true;
    }
    if str_content_eq(v, "Lowercase_Letter") {
        return true;
    }
    if str_content_eq(v, "Lm") {
        return true;
    }
    if str_content_eq(v, "Modifier_Letter") {
        return true;
    }
    if str_content_eq(v, "Lo") {
        return true;
    }
    if str_content_eq(v, "Other_Letter") {
        return true;
    }
    if str_content_eq(v, "Lt") {
        return true;
    }
    if str_content_eq(v, "Titlecase_Letter") {
        return true;
    }
    if str_content_eq(v, "Lu") {
        return true;
    }
    if str_content_eq(v, "Uppercase_Letter") {
        return true;
    }
    if str_content_eq(v, "M") {
        return true;
    }
    if str_content_eq(v, "Mark") {
        return true;
    }
    if str_content_eq(v, "Combining_Mark") {
        return true;
    }
    if str_content_eq(v, "Mc") {
        return true;
    }
    if str_content_eq(v, "Spacing_Mark") {
        return true;
    }
    if str_content_eq(v, "Me") {
        return true;
    }
    if str_content_eq(v, "Enclosing_Mark") {
        return true;
    }
    if str_content_eq(v, "Mn") {
        return true;
    }
    if str_content_eq(v, "Nonspacing_Mark") {
        return true;
    }
    if str_content_eq(v, "N") {
        return true;
    }
    if str_content_eq(v, "Number") {
        return true;
    }
    if str_content_eq(v, "digit") {
        return true;
    }
    if str_content_eq(v, "Nd") {
        return true;
    }
    false
}

pub open spec fn spec_is_general_category_value_part2(v: Seq<char>) -> bool {
    ||| v == "Decimal_Number"@
    ||| v == "Nl"@
    ||| v == "Letter_Number"@
    ||| v == "No"@
    ||| v == "Other_Number"@
    ||| v == "P"@
    ||| v == "Punctuation"@
    ||| v == "punct"@
    ||| v == "Pc"@
    ||| v == "Connector_Punctuation"@
    ||| v == "Pd"@
    ||| v == "Dash_Punctuation"@
    ||| v == "Pe"@
    ||| v == "Close_Punctuation"@
    ||| v == "Pf"@
    ||| v == "Final_Punctuation"@
    ||| v == "Pi"@
    ||| v == "Initial_Punctuation"@
    ||| v == "Po"@
    ||| v == "Other_Punctuation"@
    ||| v == "Ps"@
    ||| v == "Open_Punctuation"@
    ||| v == "S"@
    ||| v == "Symbol"@
    ||| v == "Sc"@
    ||| v == "Currency_Symbol"@
    ||| v == "Sk"@
    ||| v == "Modifier_Symbol"@
    ||| v == "Sm"@
    ||| v == "Math_Symbol"@
    ||| v == "So"@
    ||| v == "Other_Symbol"@
    ||| v == "Z"@
    ||| v == "Separator"@
    ||| v == "Zl"@
    ||| v == "Line_Separator"@
    ||| v == "Zp"@
    ||| v == "Paragraph_Separator"@
    ||| v == "Zs"@
    ||| v == "Space_Separator"@
}

fn is_general_category_value_part2(v: &str) -> (r: bool)
    ensures
        r == spec_is_general_category_value_part2(v@),
{
    if str_content_eq(v, "Decimal_Number") {
        return true;
    }
    if str_content_eq(v, "Nl") {
        return true;
    }
    if str_content_eq(v, "Letter_Number") {
        return true;
    }
    if str_content_eq(v, "No") {
        return true;
    }
    if str_content_eq(v, "Other_Number") {
        return true;
    }
    if str_content_eq(v, "P") {
        return true;
    }
    if str_content_eq(v, "Punctuation") {
        return true;
    }
    if str_content_eq(v, "punct") {
        return true;
    }
    if str_content_eq(v, "Pc") {
        return true;
    }
    if str_content_eq(v, "Connector_Punctuation") {
        return true;
    }
    if str_content_eq(v, "Pd") {
        return true;
    }
    if str_content_eq(v, "Dash_Punctuation") {
        return true;
    }
    if str_content_eq(v, "Pe") {
        return true;
    }
    if str_content_eq(v, "Close_Punctuation") {
        return true;
    }
    if str_content_eq(v, "Pf") {
        return true;
    }
    if str_content_eq(v, "Final_Punctuation") {
        return true;
    }
    if str_content_eq(v, "Pi") {
        return true;
    }
    if str_content_eq(v, "Initial_Punctuation") {
        return true;
    }
    if str_content_eq(v, "Po") {
        return true;
    }
    if str_content_eq(v, "Other_Punctuation") {
        return true;
    }
    if str_content_eq(v, "Ps") {
        return true;
    }
    if str_content_eq(v, "Open_Punctuation") {
        return true;
    }
    if str_content_eq(v, "S") {
        return true;
    }
    if str_content_eq(v, "Symbol") {
        return true;
    }
    if str_content_eq(v, "Sc") {
        return true;
    }
    if str_content_eq(v, "Currency_Symbol") {
        return true;
    }
    if str_content_eq(v, "Sk") {
        return true;
    }
    if str_content_eq(v, "Modifier_Symbol") {
        return true;
    }
    if str_content_eq(v, "Sm") {
        return true;
    }
    if str_content_eq(v, "Math_Symbol") {
        return true;
    }
    if str_content_eq(v, "So") {
        return true;
    }
    if str_content_eq(v, "Other_Symbol") {
        return true;
    }
    if str_content_eq(v, "Z") {
        return true;
    }
    if str_content_eq(v, "Separator") {
        return true;
    }
    if str_content_eq(v, "Zl") {
        return true;
    }
    if str_content_eq(v, "Line_Separator") {
        return true;
    }
    if str_content_eq(v, "Zp") {
        return true;
    }
    if str_content_eq(v, "Paragraph_Separator") {
        return true;
    }
    if str_content_eq(v, "Zs") {
        return true;
    }
    if str_content_eq(v, "Space_Separator") {
        return true;
    }
    false
}

/// The General_Category values and their aliases.
pub open spec fn spec_is_general_category_value(v: Seq<char>) -> bool {
    spec_is_general_category_value_part1(v) || spec_is_general_category_value_part2(v)
}

fn is_general_category_value(v: &str) -> (r: bool)
    ensures
        r == spec_is_general_category_value(v@),
{
    is_general_category_value_part1(v) || is_general_category_value_part2(v)
}

pub open spec fn spec_is_script_value_part1(v: Seq<char>) -> bool {
    ||| v == "Adlam"@
    ||| v == "Adlm"@
    ||| v == "Ahom"@
    ||| v == "Anatolian_Hieroglyphs"@
    ||| v == "Hluw"@
    ||| v == "Arabic"@
    ||| v == "Arab"@
    ||| v == "Armenian"@
    ||| v == "Armn"@
    ||| v == "Avestan"@
    ||| v == "Avst"@
    ||| v == "Balinese"@
    ||| v == "Bali"@
    ||| v == "Bamum"@
    ||| v == "Bamu"@
    ||| v == "Bassa_Vah"@
    ||| v == "Bass"@
    ||| v == "Batak"@
    ||| v == "Batk"@
    ||| v == "Bengali"@
    ||| v == "Beng"@
    ||| v == "Bhaiksuki"@
    ||| v == "Bhks"@
    ||| v == "Bopomofo"@
    ||| v == "Bopo"@
    ||| v == "Brahmi"@
    ||| v == "Brah"@
    ||| v == "Braille"@
    ||| v == "Brai"@
    ||| v == "Buginese"@
    ||| v == "Bugi"@
    ||| v == "Buhid"@
    ||| v == "Buhd"@
    ||| v == "Canadian_Aboriginal"@
    ||| v == "Cans"@
    ||| v == "Carian"@
    ||| v == "Cari"@
    ||| v == "Caucasian_Albanian"@
    ||| v == "Aghb"@
    ||| v == "Chakma"@
}

fn is_script_value_part1(v: &str) -> (r: bool)
    ensures
        r == spec_is_script_value_part1(v@),
{
    if str_content_eq(v, "Adlam") {
        return true;
    }
    if str_content_eq(v, "Adlm") {
        return true;
    }
    if str_content_eq(v, "Ahom") {
        return true;
    }
    if str_content_eq(v, "Anatolian_Hieroglyphs") {
        return true;
    }
    if str_content_eq(v, "Hluw") {
        return true;
    }
    if str_content_eq(v, "Arabic") {
        return true;
    }
    if str_content_eq(v, "Arab") {
        return true;
    }
    if str_content_eq(v, "Armenian") {
        return true;
    }
    if str_content_eq(v, "Armn") {
        return true;
    }
    if str_content_eq(v, "Avestan") {
        return true;
    }
    if str_content_eq(v, "Avst") {
        return true;
    }
    if str_content_eq(v, "Balinese") {
        return true;
    }
    if str_content_eq(v, "Bali") {
        return true;
    }
    if str_content_eq(v, "Bamum") {
        return true;
    }
    if str_content_eq(v, "Bamu") {
        return true;
    }
    if str_content_eq(v, "Bassa_Vah") {
        return true;
    }
    if str_content_eq(v, "Bass") {
        return true;
    }
    if str_content_eq(v, "Batak") {
        return true;
    }
    if str_content_eq(v, "Batk") {
        return true;
    }
    if str_content_eq(v, "Bengali") {
        return true;
    }
    if str_content_eq(v, "Beng") {
        return true;
    }
    if str_content_eq(v, "Bhaiksuki") {
        return true;
    }
    if str_content_eq(v, "Bhks") {
        return true;
    }
    if str_content_eq(v, "Bopomofo") {
        return true;
    }
    if str_content_eq(v, "Bopo") {
        return true;
    }
    if str_content_eq(v, "Brahmi") {
        return true;
    }
    if str_content_eq(v, "Brah") {
        return true;
    }
    if str_content_eq(v, "Braille") {
        return true;
    }
    if str_content_eq(v, "Brai") {
        return true;
    }
    if str_content_eq(v, "Buginese") {
        return true;
    }
    if str_content_eq(v, "Bugi") {
        return true;
    }
    if str_content_eq(v, "Buhid") {
        return true;
    }
    if str_content_eq(v, "Buhd") {
        return true;
    }
    if str_content_eq(v, "Canadian_Aboriginal") {
        return true;
    }
    if str_content_eq(v, "Cans") {
        return true;
    }
    if str_content_eq(v, "Carian") {
        return true;
    }
    if str_content_eq(v, "Cari") {
        return true;
    }
    if str_content_eq(v, "Caucasian_Albanian") {
        return true;
    }
    if str_content_eq(v, "Aghb") {
        return true;
    }
    if str_content_eq(v, "Chakma") {
        return true;
    }
    false
}

pub open spec fn spec_is_script_value_part2(v: Seq<char>) -> bool {
    ||| v == "Cakm"@
    ||| v == "Cham"@
    ||| v == "Cherokee"@
    ||| v == "Cher"@
    ||| v == "Chorasmian"@
    ||| v == "Chrs"@
    ||| v == "Common"@
    ||| v == "Zyyy"@
    ||| v == "Coptic"@
    ||| v == "Copt"@
    ||| v == "Qaac"@
    ||| v == "Cuneiform"@
    ||| v == "Xsux"@
    ||| v == "Cypriot"@
    ||| v == "Cprt"@
    ||| v == "Cypro_Minoan"@
    ||| v == "Cpmn"@
    ||| v == "Cyrillic"@
    ||| v == "Cyrl"@
    ||| v == "Deseret"@
    ||| v == "Dsrt"@
    ||| v == "Devanagari"@
    ||| v == "Deva"@
    ||| v == "Dives_Akuru"@
    ||| v == "Diak"@
    ||| v == "Dogra"@
    ||| v == "Dogr"@
    ||| v == "Duployan"@
    ||| v == "Dupl"@
    ||| v == "Egyptian_Hieroglyphs"@
    ||| v == "Egyp"@
    ||| v == "Elbasan"@
    ||| v == "Elba"@
    ||| v == "Elymaic"@
    ||| v == "Elym"@
    ||| v == "Ethiopic"@
    ||| v == "Ethi"@
    ||| v == "Georgian"@
    ||| v == "Geor"@
    ||| v == "Glagolitic"@
}

fn is_script_value_part2(v: &str) -> (r: bool)
    ensures
        r == spec_is_script_value_part2(v@),
{
    if str_content_eq(v, "Cakm") {
        return true;
    }
    if str_content_eq(v, "Cham") {
        return true;
    }
    if str_content_eq(v, "Cherokee") {
        return true;
    }
    if str_content_eq(v, "Cher") {
        return true;
    }
    if str_content_eq(v, "Chorasmian") {
        return true;
    }
    if str_content_eq(v, "Chrs") {
        return true;
    }
    if str_content_eq(v, "Common") {
        return true;
    }
    if str_content_eq(v, "Zyyy") {
        return true;
    }
    if str_content_eq(v, "Coptic") {
        return true;
    }
    if str_content_eq(v, "Copt") {
        return true;
    }
    if str_content_eq(v, "Qaac") {
        return true;
    }
    if str_content_eq(v, "Cuneiform") {
        return true;
    }
    if str_content_eq(v, "Xsux") {
        return true;
    }
    if str_content_eq(v, "Cypriot") {
        return true;
    }
    if str_content_eq(v, "Cprt") {
        return true;
    }
    if str_content_eq(v, "Cypro_Minoan") {
        return true;
    }
    if str_content_eq(v, "Cpmn") {
        return true;
    }
    if str_content_eq(v, "Cyrillic") {
        return true;
    }
    if str_content_eq(v, "Cyrl") {
        return true;
    }
    if str_content_eq(v, "Deseret") {
        return true;
    }
    if str_content_eq(v, "Dsrt") {
        return true;
    }
    if str_content_eq(v, "Devanagari") {
        return true;
    }
    if str_content_eq(v, "Deva") {
        return true;
    }
    if str_content_eq(v, "Dives_Akuru") {
        return true;
    }
    if str_content_eq(v, "Diak") {
        return true;
    }
    if str_content_eq(v, "Dogra") {
        return true;
    }
    if str_content_eq(v, "Dogr") {
        return true;
    }
    if str_content_eq(v, "Duployan") {
        return true;
    }
    if str_content_eq(v, "Dupl") {
        return true;
    }
    if str_content_eq(v, "Egyptian_Hieroglyphs") {
        return true;
    }
    if str_content_eq(v, "Egyp") {
        return true;
    }
    if str_content_eq(v, "Elbasan") {
        return true;
    }
    if str_content_eq(v, "Elba") {
        return true;
    }
    if str_content_eq(v, "Elymaic") {
        return true;
    }
    if str_content_eq(v, "Elym") {
        return true;
    }
    if str_content_eq(v, "Ethiopic") {
        return true;
    }
    if str_content_eq(v, "Ethi") {
        return true;
    }
    if str_content_eq(v, "Georgian") {
        return true;
    }
    if str_content_eq(v, "Geor") {
        return true;
    }
    if str_content_eq(v, "Glagolitic") {
        return true;
    }
    false
}

pub open spec fn spec_is_script_value_part3(v: Seq<char>) -> bool {
    ||| v == "Glag"@
    ||| v == "Gothic"@
    ||| v == "Goth"@
    ||| v == "Grantha"@
    ||| v == "Gran"@
    ||| v == "Greek"@
    ||| v == "Grek"@
    ||| v == "Gujarati"@
    ||| v == "Gujr"@
    ||| v == "Gunjala_Gondi"@
    ||| v == "Gong"@
    ||| v == "Gurmukhi"@
    ||| v == "Guru"@
    ||| v == "Han"@
    ||| v == "Hani"@
    ||| v == "Hangul"@
    ||| v == "Hang"@
    ||| v == "Hanifi_Rohingya"@
    ||| v == "Rohg"@
    ||| v == "Hanunoo"@
    ||| v == "Hano"@
    ||| v == "Hatran"@
    ||| v == "Hatr"@
    ||| v == "Hebrew"@
    ||| v == "Hebr"@
    ||| v == "Hiragana"@
    ||| v == "Hira"@
    ||| v == "Imperial_Aramaic"@
    ||| v == "Armi"@
    ||| v == "Inherited"@
    ||| v == "Zinh"@
    ||| v == "Qaai"@
    ||| v == "Inscriptional_Pahlavi"@
    ||| v == "Phli"@
    ||| v == "Inscriptional_Parthian"@
    ||| v == "Prti"@
    ||| v == "Javanese"@
    ||| v == "Java"@
    ||| v == "Kaithi"@
    ||| v == "Kthi"@
}

fn is_script_value_part3(v: &str) -> (r: bool)
    ensures
        r == spec_is_script_value_part3(v@),
{
    if str_content_eq(v, "Glag") {
        return true;
    }
    if str_content_eq(v, "Gothic") {
        return true;
    }
    if str_content_eq(v, "Goth") {
        return true;
    }
    if str_content_eq(v, "Grantha") {
        return true;
    }
    if str_content_eq(v, "Gran") {
        return true;
    }
    if str_content_eq(v, "Greek") {
        return true;
    }
    if str_content_eq(v, "Grek") {
        return true;
    }
    if str_content_eq(v, "Gujarati") {
        return true;
    }
    if str_content_eq(v, "Gujr") {
        return true;
    }
    if str_content_eq(v, "Gunjala_Gondi") {
        return true;
    }
    if str_content_eq(v, "Gong") {
        return true;
    }
    if str_content_eq(v, "Gurmukhi") {
        return true;
    }
    if str_content_eq(v, "Guru") {
        return true;
    }
    if str_content_eq(v, "Han") {
        return true;
    }
    if str_content_eq(v, "Hani") {
        return true;
    }
    if str_content_eq(v, "Hangul") {
        return true;
    }
    if str_content_eq(v, "Hang") {
        return true;
    }
    if str_content_eq(v, "Hanifi_Rohingya") {
        return true;
    }
    if str_content_eq(v, "Rohg") {
        return true;
    }
    if str_content_eq(v, "Hanunoo") {
        return true;
    }
    if str_content_eq(v, "Hano") {
        return true;
    }
    if str_content_eq(v, "Hatran") {
        return true;
    }
    if str_content_eq(v, "Hatr") {
        return true;
    }
    if str_content_eq(v, "Hebrew") {
        return true;
    }
    if str_content_eq(v, "Hebr") {
        return true;
    }
    if str_content_eq(v, "Hiragana") {
        return true;
    }
    if str_content_eq(v, "Hira") {
        return true;
    }
    if str_content_eq(v, "Imperial_Aramaic") {
        return true;
    }
    if str_content_eq(v, "Armi") {
        return true;
    }
    if str_content_eq(v, "Inherited") {
        return true;
    }
    if str_content_eq(v, "Zinh") {
        return true;
    }
    if str_content_eq(v, "Qaai") {
        return true;
    }
    if str_content_eq(v, "Inscriptional_Pahlavi") {
        return true;
    }
    if str_content_eq(v, "Phli") {
        return true;
    }
    if str_content_eq(v, "Inscriptional_Parthian") {
        return true;
    }
    if str_content_eq(v, "Prti") {
        return true;
    }
    if str_content_eq(v, "Javanese") {
        return true;
    }
    if str_content_eq(v, "Java") {
        return true;
    }
    if str_content_eq(v, "Kaithi") {
        return true;
    }
    if str_content_eq(v, "Kthi") {
        return true;
    }
    false
}

pub open spec fn spec_is_script_value_part4(v: Seq<char>) -> bool {
    ||| v == "Kannada"@
    ||| v == "Knda"@
    ||| v == "Katakana"@
    ||| v == "Kana"@
    ||| v == "Kawi"@
    ||| v == "Kayah_Li"@
    ||| v == "Kali"@
    ||| v == "Kharoshthi"@
    ||| v == "Khar"@
    ||| v == "Khitan_Small_Script"@
    ||| v == "Kits"@
    ||| v == "Khmer"@
    ||| v == "Khmr"@
    ||| v == "Khojki"@
    ||| v == "Khoj"@
    ||| v == "Khudawadi"@
    ||| v == "Sind"@
    ||| v == "Lao"@
    ||| v == "Laoo"@
    ||| v == "Latin"@
    ||| v == "Latn"@
    ||| v == "Lepcha"@
    ||| v == "Lepc"@
    ||| v == "Limbu"@
    ||| v == "Limb"@
    ||| v == "Linear_A"@
    ||| v == "Lina"@
    ||| v == "Linear_B"@
    ||| v == "Linb"@
    ||| v == "Lisu"@
    ||| v == "Lycian"@
    ||| v == "Lyci"@
    ||| v == "Lydian"@
    ||| v == "Lydi"@
    ||| v == "Mahajani"@
    ||| v == "Mahj"@
    ||| v == "Makasar"@
    ||| v == "Maka"@
    ||| v == "Malayalam"@
    ||| v == "Mlym"@
}

fn is_script_value_part4(v: &str) -> (r: bool)
    ensures
        r == spec_is_script_value_part4(v@),
{
    if str_content_eq(v, "Kannada") {
        return true;
    }
    if str_content_eq(v, "Knda") {
        return true;
    }
    if str_content_eq(v, "Katakana") {
        return true;
    }
    if str_content_eq(v, "Kana") {
        return true;
    }
    if str_content_eq(v, "Kawi") {
        return true;
    }
    if str_content_eq(v, "Kayah_Li") {
        return true;
    }
    if str_content_eq(v, "Kali") {
        return true;
    }
    if str_content_eq(v, "Kharoshthi") {
        return true;
    }
    if str_content_eq(v, "Khar") {
        return true;
    }
    if str_content_eq(v, "Khitan_Small_Script") {
        return true;
    }
    if str_content_eq(v, "Kits") {
        return true;
    }
    if str_content_eq(v, "Khmer") {
        return true;
    }
    if str_content_eq(v, "Khmr") {
        return true;
    }
    if str_content_eq(v, "Khojki") {
        return true;
    }
    if str_content_eq(v, "Khoj") {
        return true;
    }
    if str_content_eq(v, "Khudawadi") {
        return true;
    }
    if str_content_eq(v, "Sind") {
        return true;
    }
    if str_content_eq(v, "Lao") {
        return true;
    }
    if str_content_eq(v, "Laoo") {
        return true;
    }
    if str_content_eq(v, "Latin") {
        return true;
    }
    if str_content_eq(v, "Latn") {
        return true;
    }
    if str_content_eq(v, "Lepcha") {
        return true;
    }
    if str_content_eq(v, "Lepc") {
        return true;
    }
    if str_content_eq(v, "Limbu") {
        return true;
    }
    if str_content_eq(v, "Limb") {
        return true;
    }
    if str_content_eq(v, "Linear_A") {
        return true;
    }
    if str_content_eq(v, "Lina") {
        return true;
    }
    if str_content_eq(v, "Linear_B") {
        return true;
    }
    if str_content_eq(v, "Linb") {
        return true;
    }
    if str_content_eq(v, "Lisu") {
        return true;
    }
    if str_content_eq(v, "Lycian") {
        return true;
    }
    if str_content_eq(v, "Lyci") {
        return true;
    }
    if str_content_eq(v, "Lydian") {
        return true;
    }
    if str_content_eq(v, "Lydi") {
        return true;
    }
    if str_content_eq(v, "Mahajani") {
        return true;
    }
    if str_content_eq(v, "Mahj") {
        return true;
    }
    if str_content_eq(v, "Makasar") {
        return true;
    }
    if str_content_eq(v, "Maka") {
        return true;
    }
    if str_content_eq(v, "Malayalam") {
        return true;
    }
    if str_content_eq(v, "Mlym") {
        return true;
    }
    false
}

pub open spec fn spec_is_script_value_part5(v: Seq<char>) -> bool {
    ||| v == "Mandaic"@
    ||| v == "Mand"@
    ||| v == "Manichaean"@
    ||| v == "Mani"@
    ||| v == "Marchen"@
    ||| v == "Marc"@
    ||| v == "Masaram_Gondi"@
    ||| v == "Gonm"@
    ||| v == "Medefaidrin"@
    ||| v == "Medf"@
    ||| v == "Meetei_Mayek"@
    ||| v == "Mtei"@
    ||| v == "Mende_Kikakui"@
    ||| v == "Mend"@
    ||| v == "Meroitic_Cursive"@
    ||| v == "Merc"@
    ||| v == "Meroitic_Hieroglyphs"@
    ||| v == "Mero"@
    ||| v == "Miao"@
    ||| v == "Plrd"@
    ||| v == "Modi"@
    ||| v == "Mongolian"@
    ||| v == "Mong"@
    ||| v == "Mro"@
    ||| v == "Mroo"@
    ||| v == "Multani"@
    ||| v == "Mult"@
    ||| v == "Myanmar"@
    ||| v == "Mymr"@
    ||| v == "Nabataean"@
    ||| v == "Nbat"@
    ||| v == "Nag_Mundari"@
    ||| v == "Nagm"@
    ||| v == "Nandinagari"@
    ||| v == "Nand"@
    ||| v == "New_Tai_Lue"@
    ||| v == "Talu"@
    ||| v == "Newa"@
    ||| v == "Nko"@
    ||| v == "Nkoo"@
}

fn is_script_value_part5(v: &str) -> (r: bool)
    ensures
        r == spec_is_script_value_part5(v@),
{
    if str_content_eq(v, "Mandaic") {
        return true;
    }
    if str_content_eq(v, "Mand") {
        return true;
    }
    if str_content_eq(v, "Manichaean") {
        return true;
    }
    if str_content_eq(v, "Mani") {
        return true;
    }
    if str_content_eq(v, "Marchen") {
        return true;
    }
    if str_content_eq(v, "Marc") {
        return true;
    }
    if str_content_eq(v, "Masaram_Gondi") {
        return true;
    }
    if str_content_eq(v, "Gonm") {
        return true;
    }
    if str_content_eq(v, "Medefaidrin") {
        return true;
    }
    if str_content_eq(v, "Medf") {
        return true;
    }
    if str_content_eq(v, "Meetei_Mayek") {
        return true;
    }
    if str_content_eq(v, "Mtei") {
        return true;
    }
    if str_content_eq(v, "Mende_Kikakui") {
        return true;
    }
    if str_content_eq(v, "Mend") {
        return true;
    }
    if str_content_eq(v, "Meroitic_Cursive") {
        return true;
    }
    if str_content_eq(v, "Merc") {
        return true;
    }
    if str_content_eq(v, "Meroitic_Hieroglyphs") {
        return true;
    }
    if str_content_eq(v, "Mero") {
        return true;
    }
    if str_content_eq(v, "Miao") {
        return true;
    }
    if str_content_eq(v, "Plrd") {
        return true;
    }
    if str_content_eq(v, "Modi") {
        return true;
    }
    if str_content_eq(v, "Mongolian") {
        return true;
    }
    if str_content_eq(v, "Mong") {
        return true;
    }
    if str_content_eq(v, "Mro") {
        return true;
    }
    if str_content_eq(v, "Mroo") {
        return true;
    }
    if str_content_eq(v, "Multani") {
        return true;
    }
    if str_content_eq(v, "Mult") {
        return true;
    }
    if str_content_eq(v, "Myanmar") {
        return true;
    }
    if str_content_eq(v, "Mymr") {
        return true;
    }
    if str_content_eq(v, "Nabataean") {
        return true;
    }
    if str_content_eq(v, "Nbat") {
        return true;
    }
    if str_content_eq(v, "Nag_Mundari") {
        return true;
    }
    if str_content_eq(v, "Nagm") {
        return true;
    }
    if str_content_eq(v, "Nandinagari") {
        return true;
    }
    if str_content_eq(v, "Nand") {
        return true;
    }
    if str_content_eq(v, "New_Tai_Lue") {
        return true;
    }
    if str_content_eq(v, "Talu") {
        return true;
    }
    if str_content_eq(v, "Newa") {
        return true;
    }
    if str_content_eq(v, "Nko") {
        return true;
    }
    if str_content_eq(v, "Nkoo") {
        return true;
    }
    false
}

pub open spec fn spec_is_script_value_part6(v: Seq<char>) -> bool {
    ||| v == "Nushu"@
    ||| v == "Nshu"@
    ||| v == "Nyiakeng_Puachue_Hmong"@
    ||| v == "Hmnp"@
    ||| v == "Ogham"@
    ||| v == "Ogam"@
    ||| v == "Ol_Chiki"@
    ||| v == "Olck"@
    ||| v == "Old_Hungarian"@
    ||| v == "Hung"@
    ||| v == "Old_Italic"@
    ||| v == "Ital"@
    ||| v == "Old_North_Arabian"@
    ||| v == "Narb"@
    ||| v == "Old_Permic"@
    ||| v == "Perm"@
    ||| v == "Old_Persian"@
    ||| v == "Xpeo"@
    ||| v == "Old_Sogdian"@
    ||| v == "Sogo"@
    ||| v == "Old_South_Arabian"@
    ||| v == "Sarb"@
    ||| v == "Old_Turkic"@
    ||| v == "Orkh"@
    ||| v == "Old_Uyghur"@
    ||| v == "Ougr"@
    ||| v == "Oriya"@
    ||| v == "Orya"@
    ||| v == "Osage"@
    ||| v == "Osge"@
    ||| v == "Osmanya"@
    ||| v == "Osma"@
    ||| v == "Pahawh_Hmong"@
    ||| v == "Hmng"@
    ||| v == "Palmyrene"@
    ||| v == "Palm"@
    ||| v == "Pau_Cin_Hau"@
    ||| v == "Pauc"@
    ||| v == "Phags_Pa"@
    ||| v == "Phag"@
}

fn is_script_value_part6(v: &str) -> (r: bool)
    ensures
        r == spec_is_script_value_part6(v@),
{
    if str_content_eq(v, "Nushu") {
        return true;
    }
    if str_content_eq(v, "Nshu") {
        return true;
    }
    if str_content_eq(v, "Nyiakeng_Puachue_Hmong") {
        return true;
    }
    if str_content_eq(v, "Hmnp") {
        return true;
    }
    if str_content_eq(v, "Ogham") {
        return true;
    }
    if str_content_eq(v, "Ogam") {
        return true;
    }
    if str_content_eq(v, "Ol_Chiki") {
        return true;
    }
    if str_content_eq(v, "Olck") {
        return true;
    }
    if str_content_eq(v, "Old_Hungarian") {
        return true;
    }
    if str_content_eq(v, "Hung") {
        return true;
    }
    if str_content_eq(v, "Old_Italic") {
        return true;
    }
    if str_content_eq(v, "Ital") {
        return true;
    }
    if str_content_eq(v, "Old_North_Arabian") {
        return true;
    }
    if str_content_eq(v, "Narb") {
        return true;
    }
    if str_content_eq(v, "Old_Permic") {
        return true;
    }
    if str_content_eq(v, "Perm") {
        return true;
    }
    if str_content_eq(v, "Old_Persian") {
        return true;
    }
    if str_content_eq(v, "Xpeo") {
        return true;
    }
    if str_content_eq(v, "Old_Sogdian") {
        return true;
    }
    if str_content_eq(v, "Sogo") {
        return true;
    }
    if str_content_eq(v, "Old_South_Arabian") {
        return true;
    }
    if str_content_eq(v, "Sarb") {
        return true;
    }
    if str_content_eq(v, "Old_Turkic") {
        return true;
    }
    if str_content_eq(v, "Orkh") {
        return true;
    }
    if str_content_eq(v, "Old_Uyghur") {
        return true;
    }
    if str_content_eq(v, "Ougr") {
        return true;
    }
    if str_content_eq(v, "Oriya") {
        return true;
    }
    if str_content_eq(v, "Orya") {
        return true;
    }
    if str_content_eq(v, "Osage") {
        return true;
    }
    if str_content_eq(v, "Osge") {
        return true;
    }
    if str_content_eq(v, "Osmanya") {
        return true;
    }
    if str_content_eq(v, "Osma") {
        return true;
    }
    if str_content_eq(v, "Pahawh_Hmong") {
        return true;
    }
    if str_content_eq(v, "Hmng") {
        return true;
    }
    if str_content_eq(v, "Palmyrene") {
        return true;
    }
    if str_content_eq(v, "Palm") {
        return true;
    }
    if str_content_eq(v, "Pau_Cin_Hau") {
        return true;
    }
    if str_content_eq(v, "Pauc") {
        return true;
    }
    if str_content_eq(v, "Phags_Pa") {
        return true;
    }
    if str_content_eq(v, "Phag") {
        return true;
    }
    false
}

pub open spec fn spec_is_script_value_part7(v: Seq<char>) -> bool {
    ||| v == "Phoenician"@
    ||| v == "Phnx"@
    ||| v == "Psalter_Pahlavi"@
    ||| v == "Phlp"@
    ||| v == "Rejang"@
    ||| v == "Rjng"@
    ||| v == "Runic"@
    ||| v == "Runr"@
    ||| v == "Samaritan"@
    ||| v == "Samr"@
    ||| v == "Saurashtra"@
    ||| v == "Saur"@
    ||| v == "Sharada"@
    ||| v == "Shrd"@
    ||| v == "Shavian"@
    ||| v == "Shaw"@
    ||| v == "Siddham"@
    ||| v == "Sidd"@
    ||| v == "SignWriting"@
    ||| v == "Sgnw"@
    ||| v == "Sinhala"@
    ||| v == "Sinh"@
    ||| v == "Sogdian"@
    ||| v == "Sogd"@
    ||| v == "Sora_Sompeng"@
    ||| v == "Sora"@
    ||| v == "Soyombo"@
    ||| v == "Soyo"@
    ||| v == "Sundanese"@
    ||| v == "Sund"@
    ||| v == "Syloti_Nagri"@
    ||| v == "Sylo"@
    ||| v == "Syriac"@
    ||| v == "Syrc"@
    ||| v == "Tagalog"@
    ||| v == "Tglg"@
    ||| v == "Tagbanwa"@
    ||| v == "Tagb"@
    ||| v == "Tai_Le"@
    ||| v == "Tale"@
}

fn is_script_value_part7(v: &str) -> (r: bool)
    ensures
        r == spec_is_script_value_part7(v@),
{
    if str_content_eq(v, "Phoenician") {
        return true;
    }
    if str_content_eq(v, "Phnx") {
        return true;
    }
    if str_content_eq(v, "Psalter_Pahlavi") {
        return true;
    }
    if str_content_eq(v, "Phlp") {
        return true;
    }
    if str_content_eq(v, "Rejang") {
        return true;
    }
    if str_content_eq(v, "Rjng") {
        return true;
    }
    if str_content_eq(v, "Runic") {
        return true;
    }
    if str_content_eq(v, "Runr") {
        return true;
    }
    if str_content_eq(v, "Samaritan") {
        return true;
    }
    if str_content_eq(v, "Samr") {
        return true;
    }
    if str_content_eq(v, "Saurashtra") {
        return true;
    }
    if str_content_eq(v, "Saur") {
        return true;
    }
    if str_content_eq(v, "Sharada") {
        return true;
    }
    if str_content_eq(v, "Shrd") {
        return true;
    }
    if str_content_eq(v, "Shavian") {
        return true;
    }
    if str_content_eq(v, "Shaw") {
        return true;
    }
    if str_content_eq(v, "Siddham") {
        return true;
    }
    if str_content_eq(v, "Sidd") {
        return true;
    }
    if str_content_eq(v, "SignWriting") {
        return true;
    }
    if str_content_eq(v, "Sgnw") {
        return true;
    }
    if str_content_eq(v, "Sinhala") {
        return true;
    }
    if str_content_eq(v, "Sinh") {
        return true;
    }
    if str_content_eq(v, "Sogdian") {
        return true;
    }
    if str_content_eq(v, "Sogd") {
        return true;
    }
    if str_content_eq(v, "Sora_Sompeng") {
        return true;
    }
    if str_content_eq(v, "Sora") {
        return true;
    }
    if str_content_eq(v, "Soyombo") {
        return true;
    }
    if str_content_eq(v, "Soyo") {
        return true;
    }
    if str_content_eq(v, "Sundanese") {
        return true;
    }
    if str_content_eq(v, "Sund") {
        return true;
    }
    if str_content_eq(v, "Syloti_Nagri") {
        return true;
    }
    if str_content_eq(v, "Sylo") {
        return true;
    }
    if str_content_eq(v, "Syriac") {
        return true;
    }
    if str_content_eq(v, "Syrc") {
        return true;
    }
    if str_content_eq(v, "Tagalog") {
        return true;
    }
    if str_content_eq(v, "Tglg") {
        return true;
    }
    if str_content_eq(v, "Tagbanwa") {
        return true;
    }
    if str_content_eq(v, "Tagb") {
        return true;
    }
    if str_content_eq(v, "Tai_Le") {
        return true;
    }
    if str_content_eq(v, "Tale") {
        return true;
    }
    false
}

pub open spec fn spec_is_script_value_part8(v: Seq<char>) -> bool {
    ||| v == "Tai_Tham"@
    ||| v == "Lana"@
    ||| v == "Tai_Viet"@
    ||| v == "Tavt"@
    ||| v == "Takri"@
    ||| v == "Takr"@
    ||| v == "Tamil"@
    ||| v == "Taml"@
    ||| v == "Tangsa"@
    ||| v == "Tnsa"@
    ||| v == "Tangut"@
    ||| v == "Tang"@
    ||| v == "Telugu"@
    ||| v == "Telu"@
    ||| v == "Thaana"@
    ||| v == "Thaa"@
    ||| v == "Thai"@
    ||| v == "Tibetan"@
    ||| v == "Tibt"@
    ||| v == "Tifinagh"@
    ||| v == "Tfng"@
    ||| v == "Tirhuta"@
    ||| v == "Tirh"@
    ||| v == "Toto"@
    ||| v == "Ugaritic"@
    ||| v == "Ugar"@
    ||| v == "Vai"@
    ||| v == "Vaii"@
    ||| v == "Vithkuqi"@
    ||| v == "Vith"@
    ||| v == "Wancho"@
    ||| v == "Wcho"@
    ||| v == "Warang_Citi"@
    ||| v == "Wara"@
    ||| v == "Yezidi"@
    ||| v == "Yezi"@
    ||| v == "Yi"@
    ||| v == "Yiii"@
    ||| v == "Zanabazar_Square"@
    ||| v == "Zanb"@
}

fn is_script_value_part8(v: &str) -> (r: bool)
    ensures
        r == spec_is_script_value_part8(v@),
{
    if str_content_eq(v, "Tai_Tham") {
        return true;
    }
    if str_content_eq(v, "Lana") {
        return true;
    }
    if str_content_eq(v, "Tai_Viet") {
        return true;
    }
    if str_content_eq(v, "Tavt") {
        return true;
    }
    if str_content_eq(v, "Takri") {
        return true;
    }
    if str_content_eq(v, "Takr") {
        return true;
    }
    if str_content_eq(v, "Tamil") {
        return true;
    }
    if str_content_eq(v, "Taml") {
        return true;
    }
    if str_content_eq(v, "Tangsa") {
        return true;
    }
    if str_content_eq(v, "Tnsa") {
        return true;
    }
    if str_content_eq(v, "Tangut") {
        return true;
    }
    if str_content_eq(v, "Tang") {
        return true;
    }
    if str_content_eq(v, "Telugu") {
        return true;
    }
    if str_content_eq(v, "Telu") {
        return true;
    }
    if str_content_eq(v, "Thaana") {
        return true;
    }
    if str_content_eq(v, "Thaa") {
        return true;
    }
    if str_content_eq(v, "Thai") {
        return true;
    }
    if str_content_eq(v, "Tibetan") {
        return true;
    }
    if str_content_eq(v, "Tibt") {
        return true;
    }
    if str_content_eq(v, "Tifinagh") {
        return true;
    }
    if str_content_eq(v, "Tfng") {
        return true;
    }
    if str_content_eq(v, "Tirhuta") {
        return true;
    }
    if str_content_eq(v, "Tirh") {
        return true;
    }
    if str_content_eq(v, "Toto") {
        return true;
    }
    if str_content_eq(v, "Ugaritic") {
        return true;
    }
    if str_content_eq(v, "Ugar") {
        return true;
    }
    if str_content_eq(v, "Vai") {
        return true;
    }
    if str_content_eq(v, "Vaii") {
        return true;
    }
    if str_content_eq(v, "Vithkuqi") {
        return true;
    }
    if str_content_eq(v, "Vith") {
        return true;
    }
    if str_content_eq(v, "Wancho") {
        return true;
    }
    if str_content_eq(v, "Wcho") {
        return true;
    }
    if str_content_eq(v, "Warang_Citi") {
        return true;
    }
    if str_content_eq(v, "Wara") {
        return true;
    }
    if str_content_eq(v, "Yezidi") {
        return true;
    }
    if str_content_eq(v, "Yezi") {
        return true;
    }
    if str_content_eq(v, "Yi") {
        return true;
    }
    if str_content_eq(v, "Yiii") {
        return true;
    }
    if str_content_eq(v, "Zanabazar_Square") {
        return true;
    }
    if str_content_eq(v, "Zanb") {
        return true;
    }
    false
}

/// The Script values and their aliases.
pub open spec fn spec_is_script_value(v: Seq<char>) -> bool {
    spec_is_script_value_part1(v) || spec_is_script_value_part2(v) || spec_is_script_value_part3(v) || spec_is_script_value_part4(v) || spec_is_script_value_part5(v) || spec_is_script_value_part6(v) || spec_is_script_value_part7(v) || spec_is_script_value_part8(v)
}

fn is_script_value(v: &str) -> (r: bool)
    ensures
        r == spec_is_script_value(v@),
{
    is_script_value_part1(v) || is_script_value_part2(v) || is_script_value_part3(v) || is_script_value_part4(v) || is_script_value_part5(v) || is_script_value_part6(v) || is_script_value_part7(v) || is_script_value_part8(v)
}

pub open spec fn spec_is_binary_property_part1(v: Seq<char>) -> bool {
    ||| v == "ASCII"@
    ||| v == "ASCII_Hex_Digit"@
    ||| v == "AHex"@
    ||| v == "Alphabetic"@
    ||| v == "Alpha"@
    ||| v == "Any"@
    ||| v == "Assigned"@
    ||| v == "Bidi_Control"@
    ||| v == "Bidi_C"@
    ||| v == "Bidi_Mirrored"@
    ||| v == "Bidi_M"@
    ||| v == "Case_Ignorable"@
    ||| v == "CI"@
    ||| v == "Cased"@
    ||| v == "Changes_When_Casefolded"@
    ||| v == "CWCF"@
    ||| v == "Changes_When_Casemapped"@
    ||| v == "CWCM"@
    ||| v == "Changes_When_Lowercased"@
    ||| v == "CWL"@
    ||| v == "Changes_When_NFKC_Casefolded"@
    ||| v == "CWKCF"@
    ||| v == "Changes_When_Titlecased"@
    ||| v == "CWT"@
    ||| v == "Changes_When_Uppercased"@
    ||| v == "CWU"@
    ||| v == "Dash"@
    ||| v == "Default_Ignorable_Code_Point"@
    ||| v == "DI"@
    ||| v == "Deprecated"@
    ||| v == "Dep"@
    ||| v == "Diacritic"@
    ||| v == "Dia"@
    ||| v == "Emoji"@
    ||| v == "Emoji_Component"@
    ||| v == "EComp"@
    ||| v == "Emoji_Modifier"@
    ||| v == "EMod"@
    ||| v == "Emoji_Modifier_Base"@
    ||| v == "EBase"@
}

fn is_binary_property_part1(v: &str) -> (r: bool)
    ensures
        r == spec_is_binary_property_part1(v@),
{
    if str_content_eq(v, "ASCII") {
        return true;
    }
    if str_content_eq(v, "ASCII_Hex_Digit") {
        return true;
    }
    if str_content_eq(v, "AHex") {
        return true;
    }
    if str_content_eq(v, "Alphabetic") {
        return true;
    }
    if str_content_eq(v, "Alpha") {
        return true;
    }
    if str_content_eq(v, "Any") {
        return true;
    }
    if str_content_eq(v, "Assigned") {
        return true;
    }
    if str_content_eq(v, "Bidi_Control") {
        return true;
    }
    if str_content_eq(v, "Bidi_C") {
        return true;
    }
    if str_content_eq(v, "Bidi_Mirrored") {
        return true;
    }
    if str_content_eq(v, "Bidi_M") {
        return true;
    }
    if str_content_eq(v, "Case_Ignorable") {
        return true;
    }
    if str_content_eq(v, "CI") {
        return true;
    }
    if str_content_eq(v, "Cased") {
        return true;
    }
    if str_content_eq(v, "Changes_When_Casefolded") {
        return true;
    }
    if str_content_eq(v, "CWCF") {
        return true;
    }
    if str_content_eq(v, "Changes_When_Casemapped") {
        return true;
    }
    if str_content_eq(v, "CWCM") {
        return true;
    }
    if str_content_eq(v, "Changes_When_Lowercased") {
        return true;
    }
    if str_content_eq(v, "CWL") {
        return true;
    }
    if str_content_eq(v, "Changes_When_NFKC_Casefolded") {
        return true;
    }
    if str_content_eq(v, "CWKCF") {
        return true;
    }
    if str_content_eq(v, "Changes_When_Titlecased") {
        return true;
    }
    if str_content_eq(v, "CWT") {
        return true;
    }
    if str_content_eq(v, "Changes_When_Uppercased") {
        return true;
    }
    if str_content_eq(v, "CWU") {
        return true;
    }
    if str_content_eq(v, "Dash") {
        return true;
    }
    if str_content_eq(v, "Default_Ignorable_Code_Point") {
        return true;
    }
    if str_content_eq(v, "DI") {
        return true;
    }
    if str_content_eq(v, "Deprecated") {
        return true;
    }
    if str_content_eq(v, "Dep") {
        return true;
    }
    if str_content_eq(v, "Diacritic") {
        return true;
    }
    if str_content_eq(v, "Dia") {
        return true;
    }
    if str_content_eq(v, "Emoji") {
        return true;
    }
    if str_content_eq(v, "Emoji_Component") {
        return true;
    }
    if str_content_eq(v, "EComp") {
        return true;
    }
    if str_content_eq(v, "Emoji_Modifier") {
        return true;
    }
    if str_content_eq(v, "EMod") {
        return true;
    }
    if str_content_eq(v, "Emoji_Modifier_Base") {
        return true;
    }
    if str_content_eq(v, "EBase") {
        return true;
    }
    false
}

pub open spec fn spec_is_binary_property_part2(v: Seq<char>) -> bool {
    ||| v == "Emoji_Presentation"@
    ||| v == "EPres"@
    ||| v == "Extended_Pictographic"@
    ||| v == "ExtPict"@
    ||| v == "Extender"@
    ||| v == "Ext"@
    ||| v == "Grapheme_Base"@
    ||| v == "Gr_Base"@
    ||| v == "Grapheme_Extend"@
    ||| v == "Gr_Ext"@
    ||| v == "Hex_Digit"@
    ||| v == "Hex"@
    ||| v == "ID_Continue"@
    ||| v == "IDC"@
    ||| v == "ID_Start"@
    ||| v == "IDS"@
    ||| v == "Ideographic"@
    ||| v == "Ideo"@
    ||| v == "IDS_Binary_Operator"@
    ||| v == "IDSB"@
    ||| v == "IDS_Trinary_Operator"@
    ||| v == "IDST"@
    ||| v == "Join_Control"@
    ||| v == "Join_C"@
    ||| v == "Logical_Order_Exception"@
    ||| v == "LOE"@
    ||| v == "Lowercase"@
    ||| v == "Lower"@
    ||| v == "Math"@
    ||| v == "Noncharacter_Code_Point"@
    ||| v == "NChar"@
    ||| v == "Pattern_Syntax"@
    ||| v == "Pat_Syn"@
    ||| v == "Pattern_White_Space"@
    ||| v == "Pat_WS"@
    ||| v == "Quotation_Mark"@
    ||| v == "QMark"@
    ||| v == "Radical"@
    ||| v == "Regional_Indicator"@
    ||| v == "RI"@
}

fn is_binary_property_part2(v: &str) -> (r: bool)
    ensures
        r == spec_is_binary_property_part2(v@),
{
    if str_content_eq(v, "Emoji_Presentation") {
        return true;
    }
    if str_content_eq(v, "EPres") {
        return true;
    }
    if str_content_eq(v, "Extended_Pictographic") {
        return true;
    }
    if str_content_eq(v, "ExtPict") {
        return true;
    }
    if str_content_eq(v, "Extender") {
        return true;
    }
    if str_content_eq(v, "Ext") {
        return true;
    }
    if str_content_eq(v, "Grapheme_Base") {
        return true;
    }
    if str_content_eq(v, "Gr_Base") {
        return true;
    }
    if str_content_eq(v, "Grapheme_Extend") {
        return true;
    }
    if str_content_eq(v, "Gr_Ext") {
        return true;
    }
    if str_content_eq(v, "Hex_Digit") {
        return true;
    }
    if str_content_eq(v, "Hex") {
        return true;
    }
    if str_content_eq(v, "ID_Continue") {
        return true;
    }
    if str_content_eq(v, "IDC") {
        return true;
    }
    if str_content_eq(v, "ID_Start") {
        return true;
    }
    if str_content_eq(v, "IDS") {
        return true;
    }
    if str_content_eq(v, "Ideographic") {
        return true;
    }
    if str_content_eq(v, "Ideo") {
        return true;
    }
    if str_content_eq(v, "IDS_Binary_Operator") {
        return true;
    }
    if str_content_eq(v, "IDSB") {
        return true;
    }
    if str_content_eq(v, "IDS_Trinary_Operator") {
        return true;
    }
    if str_content_eq(v, "IDST") {
        return true;
    }
    if str_content_eq(v, "Join_Control") {
        return true;
    }
    if str_content_eq(v, "Join_C") {
        return true;
    }
    if str_content_eq(v, "Logical_Order_Exception") {
        return true;
    }
    if str_content_eq(v, "LOE") {
        return true;
    }
    if str_content_eq(v, "Lowercase") {
        return true;
    }
    if str_content_eq(v, "Lower") {
        return true;
    }
    if str_content_eq(v, "Math") {
        return true;
    }
    if str_content_eq(v, "Noncharacter_Code_Point") {
        return true;
    }
    if str_content_eq(v, "NChar") {
        return true;
    }
    if str_content_eq(v, "Pattern_Syntax") {
        return true;
    }
    if str_content_eq(v, "Pat_Syn") {
        return true;
    }
    if str_content_eq(v, "Pattern_White_Space") {
        return true;
    }
    if str_content_eq(v, "Pat_WS") {
        return true;
    }
    if str_content_eq(v, "Quotation_Mark") {
        return true;
    }
    if str_content_eq(v, "QMark") {
        return true;
    }
    if str_content_eq(v, "Radical") {
        return true;
    }
    if str_content_eq(v, "Regional_Indicator") {
        return true;
    }
    if str_content_eq(v, "RI") {
        return true;
    }
    false
}

pub open spec fn spec_is_binary_property_part3(v: Seq<char>) -> bool {
    ||| v == "Sentence_Terminal"@
    ||| v == "STerm"@
    ||| v == "Soft_Dotted"@
    ||| v == "SD"@
    ||| v == "Terminal_Punctuation"@
    ||| v == "Term"@
    ||| v == "Unified_Ideograph"@
    ||| v == "UIdeo"@
    ||| v == "Uppercase"@
    ||| v == "Upper"@
    ||| v == "Variation_Selector"@
    ||| v == "VS"@
    ||| v == "White_Space"@
    ||| v == "space"@
    ||| v == "XID_Continue"@
    ||| v == "XIDC"@
    ||| v == "XID_Start"@
    ||| v == "XIDS"@
}

fn is_binary_property_part3(v: &str) -> (r: bool)
    ensures
        r == spec_is_binary_property_part3(v@),
{
    if str_content_eq(v, "Sentence_Terminal") {
        return true;
    }
    if str_content_eq(v, "STerm") {
        return true;
    }
    if str_content_eq(v, "Soft_Dotted") {
        return true;
    }
    if str_content_eq(v, "SD") {
        return true;
    }
    if str_content_eq(v, "Terminal_Punctuation") {
        return true;
    }
    if str_content_eq(v, "Term") {
        return true;
    }
    if str_content_eq(v, "Unified_Ideograph") {
        return true;
    }
    if str_content_eq(v, "UIdeo") {
        return true;
    }
    if str_content_eq(v, "Uppercase") {
        return true;
    }
    if str_content_eq(v, "Upper") {
        return true;
    }
    if str_content_eq(v, "Variation_Selector") {
        return true;
    }
    if str_content_eq(v, "VS") {
        return true;
    }
    if str_content_eq(v, "White_Space") {
        return true;
    }
    if str_content_eq(v, "space") {
        return true;
    }
    if str_content_eq(v, "XID_Continue") {
        return true;
    }
    if str_content_eq(v, "XIDC") {
        return true;
    }
    if str_content_eq(v, "XID_Start") {
        return true;
    }
    if str_content_eq(v, "XIDS") {
        return true;
    }
    false
}

/// The binary property names and their aliases.
pub open spec fn spec_is_binary_property(v: Seq<char>) -> bool {
    spec_is_binary_property_part1(v) || spec_is_binary_property_part2(v) || spec_is_binary_property_part3(v)
}

fn is_binary_property(v: &str) -> (r: bool)
    ensures
        r == spec_is_binary_property(v@),
{
    is_binary_property_part1(v) || is_binary_property_part2(v) || is_binary_property_part3(v)
}

pub open spec fn spec_is_strings_property_part1(v: Seq<char>) -> bool {
    ||| v == "Basic_Emoji"@
    ||| v == "Emoji_Keycap_Sequence"@
    ||| v == "RGI_Emoji_Modifier_Sequence"@
    ||| v == "RGI_Emoji_Flag_Sequence"@
    ||| v == "RGI_Emoji_Tag_Sequence"@
    ||| v == "RGI_Emoji_ZWJ_Sequence"@
    ||| v == "RGI_Emoji"@
}

fn is_strings_property_part1(v: &str) -> (r: bool)
    ensures
        r == spec_is_strings_property_part1(v@),
{
    if str_content_eq(v, "Basic_Emoji") {
        return true;
    }
    if str_content_eq(v, "Emoji_Keycap_Sequence") {
        return true;
    }
    if str_content_eq(v, "RGI_Emoji_Modifier_Sequence") {
        return true;
    }
    if str_content_eq(v, "RGI_Emoji_Flag_Sequence") {
        return true;
    }
    if str_content_eq(v, "RGI_Emoji_Tag_Sequence") {
        return true;
    }
    if str_content_eq(v, "RGI_Emoji_ZWJ_Sequence") {
        return true;
    }
    if str_content_eq(v, "RGI_Emoji") {
        return true;
    }
    false
}

/// The binary properties of strings.
pub open spec fn spec_is_strings_property(v: Seq<char>) -> bool {
    spec_is_strings_property_part1(v)
}

fn is_strings_property(v: &str) -> (r: bool)
    ensures
        r == spec_is_strings_property(v@),
{
    is_strings_property_part1(v)
}

/// True when `name=value` names a property-value pair the tables hold:
/// a General_Category value for `General_Category`/`gc`, or a Script value
/// for `Script`/`sc`/`Script_Extensions`/`scx`.
pub open spec fn spec_is_valid_unicode_property(name: Seq<char>, value: Seq<char>) -> bool {
    if name == "General_Category"@ || name == "gc"@ {
        spec_is_general_category_value(value)
    } else if name == "Script"@ || name == "sc"@ || name == "Script_Extensions"@ || name
        == "scx"@ {
        spec_is_script_value(value)
    } else {
        false
    }
}

pub fn is_valid_unicode_property(name: &str, value: &str) -> (r: bool)
    ensures
        r == spec_is_valid_unicode_property(name@, value@),
{
    if str_content_eq(name, "General_Category") || str_content_eq(name, "gc") {
        is_general_category_value(value)
    } else if str_content_eq(name, "Script") || str_content_eq(name, "sc") || str_content_eq(
        name,
        "Script_Extensions",
    ) || str_content_eq(name, "scx") {
        is_script_value(value)
    } else {
        false
    }
}

/// True when the lone name is a binary property the tables hold.
pub open spec fn spec_is_valid_lone_unicode_property(v: Seq<char>) -> bool {
    spec_is_binary_property(v)
}

pub fn is_valid_lone_unicode_property(v: &str) -> (r: bool)
    ensures
        r == spec_is_valid_lone_unicode_property(v@),
{
    is_binary_property(v)
}

/// True when the lone name is a binary property of strings, legal only in
/// unicode-sets mode.
pub open spec fn spec_is_valid_lone_unicode_property_of_strings(v: Seq<char>) -> bool {
    spec_is_strings_property(v)
}

pub fn is_valid_lone_unicode_property_of_strings(v: &str) -> (r: bool)
    ensures
        r == spec_is_valid_lone_unicode_property_of_strings(v@),
{
    is_strings_property(v)
}

} // verus!
