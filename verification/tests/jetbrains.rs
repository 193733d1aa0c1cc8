use slumber::collection::jetbrains::{
    assign, build_file_from_lines, lookup, parse_line_without_comment, parse_lines,
    parse_request_line, parse_request_name_annotation, parse_seperator,
    parse_variable_assignment, parse_variable_identifier, parse_variable_substitution,
    starting_slash_comment, until_variable_open, JetbrainsRequest, Line,
};

#[test]
fn parse_http_variable() {
    let example_var = "@MY_VAR    = 1231\n";
    let (_, var) = parse_variable_assignment(example_var).unwrap();

    assert_eq!(var, ("MY_VAR", "1231"),);

    let example_var = "@MY_NAME =hello\n";
    let (rest, var) = parse_variable_assignment(example_var).unwrap();

    assert_eq!(var, ("MY_NAME", "hello"));
    assert_eq!(rest, "");

    let example_var = "@Cool-Word = super_cool\n";
    let (_, var) = parse_variable_assignment(example_var).unwrap();

    assert_eq!(var, ("Cool-Word", "super_cool"));

    println!("{var:?}");
}

#[test]
fn parse_seperator_line() {
    let line = "### RequestName";
    let (_, items) = parse_seperator(line).unwrap();
    assert_eq!(items, vec![Line::Seperator, Line::Name("RequestName".into())]);

    let line = "#######";
    let (_, items) = parse_seperator(line).unwrap();
    assert_eq!(items, vec![Line::Seperator]);

    let line = "###";
    let (_, items) = parse_seperator(line).unwrap();
    assert_eq!(items, vec![Line::Seperator]);

    let line = "#";
    let res = parse_seperator(line);
    assert!(res.is_err());
}

#[test]
fn parse_request_name_test() {
    let line = "# @name=hello";
    let (_, name) = parse_request_name_annotation(line).unwrap();
    assert_eq!(name, Line::Name("hello".into()));

    let line = "# @name Cool";
    let (_, name) = parse_request_name_annotation(line).unwrap();
    assert_eq!(name, Line::Name("Cool".into()));
}

const EXAMPLE: &str = r#"
###
@MY_VAR = 123
@hello=blahblah
GET https://httpbin.org HTTP/1.1

// Comment
@var = 12

### Request

GET {{hello}} HTTP/1.1

example example
######
# @name OtherRequest

POST {{HOST}}/post HTTP/1.1
Content-Type: application/json
X-Http-Method-Override: PUT

{
    "data": "my data"
}
        "#;

#[test]
fn parse_lines_test() {
    let example = EXAMPLE;

    let (lines, variables) = parse_lines(example);
    println!("{:?}", lines);

    let file = build_file_from_lines(lines, variables);
    println!("{:?}", file);
}

fn request(text: &str) -> Line {
    Line::Request(text.to_owned())
}

#[test]
fn parse_lines_reads_every_kind_of_line() {
    let (lines, variables) = parse_lines(EXAMPLE);
    assert_eq!(
        variables,
        vec![
            ("MY_VAR".to_owned(), "123".to_owned()),
            ("hello".to_owned(), "blahblah".to_owned()),
            ("var".to_owned(), "12".to_owned()),
        ]
    );
    assert_eq!(
        lines,
        vec![
            Line::Seperator,
            request("GET https://httpbin.org HTTP/1.1\n"),
            request(""),
            Line::Seperator,
            Line::Name("Request".to_owned()),
            request("GET {{hello}} HTTP/1.1\n"),
            request("example example\n"),
            Line::Seperator,
            Line::Name("OtherRequest".to_owned()),
            request("POST {{HOST}}/post HTTP/1.1\n"),
            request("Content-Type: application/json\n"),
            request("X-Http-Method-Override: PUT\n"),
            request("{\n"),
            request("    \"data\": \"my data\"\n"),
            request("}\n"),
        ]
    );
}

#[test]
fn build_file_keeps_what_a_separator_ends() {
    let (lines, variables) = parse_lines(EXAMPLE);
    let file = build_file_from_lines(lines, variables);
    assert_eq!(file.variables.len(), 3);
    assert_eq!(
        file.sections,
        vec![
            JetbrainsRequest {
                name: None,
                request: "GET https://httpbin.org HTTP/1.1\n\r\n\r\n".to_owned(),
            },
            JetbrainsRequest {
                name: Some("Request".to_owned()),
                request: "GET {{hello}} HTTP/1.1\n\r\nexample example\n\r\n".to_owned(),
            },
        ]
    );
}

#[test]
fn parse_lines_of_nothing() {
    assert_eq!(parse_lines(""), (vec![], vec![]));
    assert_eq!(parse_lines(" \n\t \r\n"), (vec![], vec![]));
    let file = build_file_from_lines(vec![], vec![]);
    assert!(file.sections.is_empty());
    assert!(file.variables.is_empty());
}

#[test]
fn parse_lines_strips_carriage_returns_and_comments() {
    let (lines, variables) = parse_lines("GET /a # note\r\n@a = 1\r\n@a = 2\r\nlast\r");
    assert_eq!(lines, vec![request("GET /a "), request("last\n")]);
    assert_eq!(variables, vec![("a".to_owned(), "2".to_owned())]);
}

#[test]
fn request_methods() {
    let mut request = JetbrainsRequest::default();
    assert!(request.is_empty());
    assert_eq!(request.name, None);
    request.set_name("first").push_line("GET /").push_line(" x ").trim();
    assert!(!request.is_empty());
    assert_eq!(request.name.as_deref(), Some("first"));
    assert_eq!(request.request, "GET /\r\n x \r\n");
}

#[test]
fn separator_name_ends_at_space() {
    let (rest, items) = parse_seperator("###  One Two\n").unwrap();
    assert_eq!(items, vec![Line::Seperator, Line::Name("One".into())]);
    assert_eq!(rest, " Two\n");
    let (rest, items) = parse_seperator("### \n").unwrap();
    assert_eq!(items, vec![Line::Seperator, Line::Name("".into())]);
    assert_eq!(rest, "\n");
    let (rest, items) = parse_seperator("#######").unwrap();
    assert_eq!(items, vec![Line::Seperator]);
    assert_eq!(rest, "####");
    assert!(parse_seperator("##").is_err());
    assert!(parse_seperator(" ###").is_err());
}

#[test]
fn name_annotation_forms() {
    let (rest, name) = parse_request_name_annotation("#   @name =  x y").unwrap();
    assert_eq!(name, Line::Name("=".into()));
    assert_eq!(rest, "  x y");
    let (rest, name) = parse_request_name_annotation("#\t@name=  x y").unwrap();
    assert_eq!(name, Line::Name("x".into()));
    assert_eq!(rest, " y");
    assert!(parse_request_name_annotation("@name=x").is_err());
    assert!(parse_request_name_annotation("# @nam=x").is_err());
    assert!(parse_request_name_annotation("# @name").is_err());
    assert!(parse_request_name_annotation("# @name:x").is_err());
}

#[test]
fn variable_identifier_forms() {
    assert_eq!(parse_variable_identifier("a1_b-c.d e"), Ok((" e", "a1_b-c.d")));
    assert_eq!(parse_variable_identifier("Z"), Ok(("", "Z")));
    assert!(parse_variable_identifier("1a").is_err());
    assert!(parse_variable_identifier("_a").is_err());
    assert!(parse_variable_identifier("").is_err());
}

#[test]
fn variable_assignment_needs_line_feed() {
    assert!(parse_variable_assignment("@a = 1").is_err());
    assert!(parse_variable_assignment("a = 1\n").is_err());
    assert!(parse_variable_assignment("@a 1\n").is_err());
    assert!(parse_variable_assignment("@1 = 1\n").is_err());
    assert_eq!(parse_variable_assignment("@a=\nrest"), Ok(("rest", ("a", ""))));
    assert_eq!(parse_variable_assignment("@a\t=\t b c \n"), Ok(("", ("a", "b c "))));
}

#[test]
fn comments() {
    assert_eq!(starting_slash_comment("// x"), Ok((" x", "//")));
    assert!(starting_slash_comment(" // x").is_err());
    assert_eq!(parse_line_without_comment("// x # y"), Ok((" x # y", "")));
    assert_eq!(parse_line_without_comment("https://a # y"), Ok(("# y", "https://a ")));
    assert_eq!(parse_line_without_comment("#"), Ok(("#", "")));
    assert!(parse_line_without_comment("no comment").is_err());
}

#[test]
fn variable_substitution_forms() {
    assert_eq!(parse_variable_substitution("{{ host }}/x"), Ok(("/x", "host")));
    assert_eq!(parse_variable_substitution("{{a}}"), Ok(("", "a")));
    assert!(parse_variable_substitution("{{ 1 }}").is_err());
    assert!(parse_variable_substitution("{{a}").is_err());
    assert!(parse_variable_substitution("x{{a}}").is_err());
    assert_eq!(until_variable_open("ab{{c}}"), Ok(("{{c}}", "ab")));
    assert_eq!(until_variable_open("{{c}}"), Ok(("{{c}}", "")));
    assert!(until_variable_open("ab{c}").is_err());
}

#[test]
fn request_line_substitutes_variables() {
    let mut variables = vec![];
    assign(&mut variables, "host", "localhost");
    assign(&mut variables, "id", "1");
    assign(&mut variables, "id", "2");
    assert_eq!(variables.len(), 2);
    assert_eq!(lookup(&variables, "id"), Some("2"));
    assert_eq!(lookup(&variables, "none"), None);
    assert_eq!(
        parse_request_line("GET {{host}}/users/{{ id }} HTTP/1.1", &variables),
        Ok((" HTTP/1.1", request("GET localhost/users/2")))
    );
    assert_eq!(parse_request_line("plain", &variables), Ok(("plain", request(""))));
    assert_eq!(
        parse_request_line("a{{host}}{{1}}b", &variables),
        Ok(("{{1}}b", request("alocalhost")))
    );
    assert!(parse_request_line("{{unknown}}", &variables).is_err());
}
