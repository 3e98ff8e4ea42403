use oatmeal::domain::models::SlashCommand;

#[test]
fn it_parses_quit() {
    for text in ["/q", "/quit"] {
        let cmd = SlashCommand::parse(text).unwrap();
        assert!(cmd.is_quit());
        assert!(!cmd.is_help());
        assert!(cmd.args.is_empty());
    }
}

#[test]
fn it_parses_model_list() {
    for text in ["/ml", "/modellist"] {
        let cmd = SlashCommand::parse(text).unwrap();
        assert!(cmd.is_model_list());
        assert!(!cmd.is_model_set());
    }
}

#[test]
fn it_parses_model_set_with_its_argument() {
    for text in ["/m llama2:latest", "/model llama2:latest"] {
        let cmd = SlashCommand::parse(text).unwrap();
        assert!(cmd.is_model_set());
        assert!(!cmd.is_model_list());
        assert_eq!(cmd.args, vec!["llama2:latest".to_string()]);
    }
}

#[test]
fn it_parses_append_code_block() {
    for text in ["/a 1", "/append 1"] {
        let cmd = SlashCommand::parse(text).unwrap();
        assert!(cmd.is_append_code_block());
        assert_eq!(cmd.args, vec!["1".to_string()]);
    }
}

#[test]
fn it_parses_replace_code_block() {
    for text in ["/r 2", "/replace 2"] {
        let cmd = SlashCommand::parse(text).unwrap();
        assert!(cmd.is_replace_code_block());
        assert_eq!(cmd.args, vec!["2".to_string()]);
    }
}

#[test]
fn it_parses_copy() {
    for text in ["/c", "/copy"] {
        let cmd = SlashCommand::parse(text).unwrap();
        assert!(cmd.is_copy());
    }
}

#[test]
fn it_parses_help() {
    for text in ["/h", "/help"] {
        let cmd = SlashCommand::parse(text).unwrap();
        assert!(cmd.is_help());
        assert!(!cmd.is_quit());
    }
}

#[test]
fn it_answers_exactly_one_question_with_yes() {
    let all = ["/q", "/ml", "/m", "/a", "/r", "/c", "/h"];
    for text in all {
        let cmd = SlashCommand::parse(text).unwrap();
        let answers = [
            cmd.is_quit(),
            cmd.is_model_list(),
            cmd.is_model_set(),
            cmd.is_append_code_block(),
            cmd.is_replace_code_block(),
            cmd.is_copy(),
            cmd.is_help(),
        ];
        assert_eq!(answers.iter().filter(|yes| **yes).count(), 1, "on {:?}", text);
    }
}

#[test]
fn it_refuses_what_is_no_command() {
    for text in ["", "   ", "hello", "q", "/", "/quitt", "/Q", "/x 1", "hello /q", "/q\t1"] {
        assert!(SlashCommand::parse(text).is_none(), "on {:?}", text);
    }
}

#[test]
fn it_trims_the_line_before_it_splits() {
    let cmd = SlashCommand::parse("  \t/r 1 2\n").unwrap();
    assert!(cmd.is_replace_code_block());
    assert_eq!(cmd.args, vec!["1".to_string(), "2".to_string()]);
}

#[test]
fn it_keeps_an_empty_argument_for_each_doubled_space() {
    let cmd = SlashCommand::parse("/a  1").unwrap();
    assert!(cmd.is_append_code_block());
    assert_eq!(cmd.args, vec!["".to_string(), "1".to_string()]);
}
