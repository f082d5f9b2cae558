use macro_lab::builder::{create_builder, builder_field_definitions, builder_init_values, builder_methods};
use macro_lab::builder_fields::{
    builder_definition, builder_impl_for_struct, builder_methods as typestate_methods, create_builder_ident,
    create_field_struct_name, get_assignments_for_fields, marker_trait_and_structs, original_struct_setters,
    to_pascal_case,
};
use macro_lab::item::{FieldDef, ItemDef};
use macro_lab::syntax::tokens_to_text;
use macro_lab::tokens::Token;

fn id(s: &str) -> Token {
    Token::Ident(s.to_string())
}

fn p(c: char) -> Token {
    Token::Punct(c, false)
}

fn field(name: &str, ty: Vec<Token>) -> FieldDef {
    FieldDef { attrs: vec![], vis: vec![], name: name.to_string(), ty }
}

fn item(name: &str, fields: Option<Vec<FieldDef>>) -> ItemDef {
    ItemDef { attrs: vec![], vis: vec![], name: name.to_string(), generics: vec![], where_clause: vec![], fields }
}

fn example_fields() -> Vec<FieldDef> {
    vec![
        field("f", vec![id("String")]),
        field("v", vec![id("u8")]),
        field("attrs", vec![id("Vec"), p('<'), id("String"), p('>')]),
    ]
}

fn text(ts: &Vec<Token>) -> String {
    tokens_to_text(ts)
}

fn texts(parts: &Vec<Vec<Token>>) -> Vec<String> {
    parts.iter().map(|t| tokens_to_text(t)).collect()
}

#[test]
fn builder_struct_name_shoule_be_present_in_output() {
    let input = item("StructWithNoFields", Some(example_fields()));
    let expected = String::new()
        + "struct StructWithNoFieldsBuilder {f : Option < String > , v : Option < u8 > , "
        + "attrs : Option < Vec < String > > , } "
        + "impl StructWithNoFieldsBuilder {"
        + "pub fn f (mut self , input : String ) -> Self {self . f = Some (input ) ; self } "
        + "pub fn v (mut self , input : u8 ) -> Self {self . v = Some (input ) ; self } "
        + "pub fn attrs (mut self , input : Vec < String > ) -> Self {self . attrs = Some (input ) ; self } "
        + "pub fn build (self ) -> StructWithNoFields {StructWithNoFields {"
        + "f : self . f . expect (concat ! (\"field is not set: \" , \"f\" ) ) , "
        + "v : self . v . expect (concat ! (\"field is not set: \" , \"v\" ) ) , "
        + "attrs : self . attrs . expect (concat ! (\"field is not set: \" , \"attrs\" ) ) , } } } "
        + "impl StructWithNoFields {pub fn builder () -> StructWithNoFieldsBuilder {"
        + "StructWithNoFieldsBuilder {f : None , v : None , attrs : None , } } } ";

    let actual = create_builder(&input).unwrap();

    assert!(text(&actual).contains("StructWithNoFieldsBuilder"));
    assert_eq!(text(&actual), expected);
}

#[test]
fn builder_of_a_struct_without_fields() {
    let actual = create_builder(&item("Empty", Some(vec![]))).unwrap();
    assert_eq!(
        text(&actual),
        "struct EmptyBuilder {} impl EmptyBuilder {pub fn build (self ) -> Empty {Empty {} } } \
         impl Empty {pub fn builder () -> EmptyBuilder {EmptyBuilder {} } } "
    );
}

#[test]
fn builder_refuses_what_is_not_a_struct_with_named_fields() {
    let e = create_builder(&item("Choice", None)).unwrap_err();
    assert_eq!(e.message, "not implemented: only implemented for structs");
    assert!(e.fatal);
}

#[test]
fn builder_parts_per_field() {
    let fs = example_fields();
    assert_eq!(
        texts(&builder_field_definitions(&fs)),
        vec!["f : Option < String > ", "v : Option < u8 > ", "attrs : Option < Vec < String > > "]
    );
    assert_eq!(texts(&builder_init_values(&fs)), vec!["f : None ", "v : None ", "attrs : None "]);
    assert_eq!(
        texts(&builder_methods(&fs))[1],
        "pub fn v (mut self , input : u8 ) -> Self {self . v = Some (input ) ; self } "
    );
    assert_eq!(texts(&get_assignments_for_fields(&fs)), vec!["f : self . f ", "v : self . v ", "attrs : self . attrs "]);
    assert_eq!(
        texts(&original_struct_setters(&fs))[0],
        "f : self . f . expect (concat ! (\"field is not set: \" , \"f\" ) ) "
    );
}

#[test]
fn names_of_the_typestate_builder() {
    assert_eq!(to_pascal_case("roots_of"), "RootsOf");
    assert_eq!(to_pascal_case("breath_of_a_fish"), "BreathOfAFish");
    assert_eq!(to_pascal_case("_x__y_"), "XY");
    assert_eq!(to_pascal_case(""), "");
    let b = create_builder_ident(&"Gleipnir".to_string());
    assert_eq!(b, "GleipnirBuilder");
    assert_eq!(create_field_struct_name(&b, &"roots_of".to_string()), "RootsOfGleipnirBuilder");
}

#[test]
fn typestate_builder_chains_the_fields_in_order() {
    let name = "Gleipnir".to_string();
    let fs = vec![field("roots_of", vec![id("String")]), field("breath_of_a_fish", vec![id("u8")])];
    let methods = text(&typestate_methods(&name, &fs));
    let expected = String::new()
        + "impl GleipnirBuilder < BreathOfAFishGleipnirBuilder > {pub fn breath_of_a_fish (mut self , input : u8 ) "
        + "-> GleipnirBuilder < FinalBuilder > {self . breath_of_a_fish = Some (input ) ; GleipnirBuilder {"
        + "roots_of : self . roots_of , breath_of_a_fish : self . breath_of_a_fish , "
        + "marker : Default :: default () , } } } "
        + "impl GleipnirBuilder < RootsOfGleipnirBuilder > {pub fn roots_of (mut self , input : String ) "
        + "-> GleipnirBuilder < BreathOfAFishGleipnirBuilder > {self . roots_of = Some (input ) ; GleipnirBuilder {"
        + "roots_of : self . roots_of , breath_of_a_fish : self . breath_of_a_fish , "
        + "marker : Default :: default () , } } } "
        + "impl GleipnirBuilder < FinalBuilder > {pub fn build (self ) -> Gleipnir {Gleipnir {"
        + "roots_of : self . roots_of . expect (concat ! (\"field is not set: \" , \"roots_of\" ) ) , "
        + "breath_of_a_fish : self . breath_of_a_fish . expect (concat ! (\"field is not set: \" , \"breath_of_a_fish\" ) ) , "
        + "} } } ";
    assert_eq!(methods, expected);

    assert_eq!(
        text(&builder_impl_for_struct(&name, &fs)),
        "impl Gleipnir {pub fn builder () -> GleipnirBuilder < RootsOfGleipnirBuilder > {GleipnirBuilder {\
         marker : Default :: default () , roots_of : None , breath_of_a_fish : None , } } } "
    );
    assert_eq!(
        text(&builder_definition(&name, &fs)),
        "pub struct GleipnirBuilder < T : MarkerTraitForBuilder > {marker : std :: marker :: PhantomData < T > , \
         roots_of : Option < String > , breath_of_a_fish : Option < u8 > , } "
    );
    assert_eq!(
        text(&marker_trait_and_structs(&name, &fs)),
        "pub trait MarkerTraitForBuilder {} \
         pub struct RootsOfGleipnirBuilder {} impl MarkerTraitForBuilder for RootsOfGleipnirBuilder {} \
         pub struct BreathOfAFishGleipnirBuilder {} impl MarkerTraitForBuilder for BreathOfAFishGleipnirBuilder {} \
         pub struct FinalBuilder {} impl MarkerTraitForBuilder for FinalBuilder {} "
    );
}

fn attr(content: Vec<Token>) -> Vec<Token> {
    vec![p('#'), Token::Group(macro_lab::tokens::Delim::Bracket, content)]
}

fn renamed(attrs: Vec<Token>) -> ItemDef {
    let f = FieldDef { attrs, vis: vec![], name: "roots_of".to_string(), ty: vec![id("String")] };
    item("Gleipnir", Some(vec![f]))
}

#[test]
fn should_generate_builder_for_struct_with_one_renamed_property() {
    let paren = Token::Group(macro_lab::tokens::Delim::Paren, vec![Token::Str("tops_of".to_string())]);
    let out = text(&create_builder(&renamed(attr(vec![id("rename"), paren]))).unwrap());
    assert!(out.contains("pub fn tops_of (mut self , input : String ) -> Self {self . roots_of = Some (input ) ; self } "));
    assert!(out.contains("roots_of : self . roots_of . expect"));
    assert!(!out.contains("fn roots_of"));
}

#[test]
fn should_generate_builder_for_struct_with_one_renamed_namedvalue_property() {
    let out = text(&create_builder(&renamed(attr(vec![id("rename"), p('='), Token::Str("tops_of".to_string())]))).unwrap());
    assert!(out.contains("pub fn tops_of (mut self , input : String ) -> Self {self . roots_of = Some (input ) ; self } "));
    assert!(!out.contains("fn roots_of"));
}

#[test]
fn should_use_defaults_when_attribute_is_present() {
    let mut it = item("ExampleStructTwoFields", Some(vec![field("string_value", vec![id("String")]), field("int_value", vec![id("i32")])]));
    it.attrs = attr(vec![id("builder_defaults")]);
    let out = text(&create_builder(&it).unwrap());
    assert!(out.contains(
        "pub fn build (self ) -> ExampleStructTwoFields {ExampleStructTwoFields {\
         string_value : self . string_value . unwrap_or_default () , \
         int_value : self . int_value . unwrap_or_default () , } } "
    ));
    assert!(!out.contains("expect"));
}

#[test]
fn rename_of_another_form_is_ignored() {
    let cases = vec![
        attr(vec![id("rename")]),
        attr(vec![id("rename"), p('='), Token::Ident("x".to_string())]),
        attr(vec![id("rename"), Token::Group(macro_lab::tokens::Delim::Paren, vec![id("x")])]),
        attr(vec![id("serde"), Token::Group(macro_lab::tokens::Delim::Paren, vec![id("skip")])]),
    ];
    for attrs in cases {
        let out = text(&create_builder(&renamed(attrs)).unwrap());
        assert!(out.contains("pub fn roots_of (mut self , input : String ) -> Self {self . roots_of = Some (input ) ; self } "));
    }
}
