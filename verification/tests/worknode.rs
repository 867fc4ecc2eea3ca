use pilot::error::PilotErrorType;
use pilot::exchange::{HttpOutcome, HttpResponse};
use pilot::worknode::ai_node::deepseek::{DeepSeekClient, DeepSeekModel};
use pilot::worknode::ai_node::{AINode, AIService};
use pilot::worknode::{Dispatch, Worknode, Worknodecore};

fn client_for_worknode() -> DeepSeekClient {
    let mut client = DeepSeekClient::new(
        "https://api.deepseek.ai/v1/chat/completions",
        DeepSeekModel::DeepseekChat,
    );
    client.set_api_key(Some("test-key".to_string()));
    client
}

fn ok_reply(content: &str) -> HttpOutcome {
    let mut body = String::new();
    body.push_str(r#"{"choices":[{"message":{"role":"assistant","content":"#);
    body.push_str(&json::stringify(content));
    body.push_str(r#"}}],"usage":{"completion_tokens":2,"prompt_tokens":3,"#);
    body.push_str(r#""prompt_cache_hit_tokens":1,"prompt_cache_miss_tokens":2,"total_tokens":5}}"#);
    HttpOutcome::Response(HttpResponse {
        status: 200,
        status_text: "200 OK".to_string(),
        body: Ok(body),
    })
}

fn history_of(worknode: &Worknode) -> Vec<(String, String)> {
    match worknode.get_node() {
        Worknodecore::AINode(node) => node
            .get_history()
            .iter()
            .map(|chat| (chat.role().clone(), chat.content().clone()))
            .collect(),
        _ => Vec::new(),
    }
}

#[test]
fn ai_worknode_execute_simple() {
    let deepseek_client = client_for_worknode();

    let ai_node = AINode::new(AIService::DeepSeek {
        client: deepseek_client,
    })
    .role(Some("你是一只可爱的猫娘".to_string()));

    let mut worknode = Worknode::new(Worknodecore::AINode(ai_node));
    let result = match worknode.excute("请介绍一下你自己".to_string()) {
        Ok(Dispatch::Post(_)) => worknode.resume(ok_reply("我是猫娘")),
        Ok(Dispatch::Done(res)) => Ok(res),
        Err(e) => Err(e),
    };
    match result {
        Ok(res) => println!("Result: {}", res),
        Err(e) => panic!("Error: {}", e.to_string()),
    }
}

#[test]
fn ai_worknode_execute() {
    let deepseek_client = client_for_worknode();

    let ai_node = AINode::new(AIService::DeepSeek {
        client: deepseek_client,
    });

    let mut worknode = Worknode::new(Worknodecore::AINode(ai_node));
    let result = match worknode.excute(
        r#"
                {
                    "role": "你是一只可爱的猫娘",
                    "input": "请介绍一下你自己",
                }"#
        .to_string(),
    ) {
        Ok(Dispatch::Post(_)) => worknode.resume(ok_reply("我是猫娘")),
        Ok(Dispatch::Done(res)) => Ok(res),
        Err(e) => Err(e),
    };
    match result {
        Ok(res) => println!("Result: {}", res),
        Err(e) => panic!("Error: {}", e.to_string()),
    }
}

#[test]
fn ai_worknode_takes_the_input_and_answers() {
    let ai_node = AINode::new(AIService::new_deepseek(client_for_worknode()))
        .role(Some("你是一只可爱的猫娘".to_string()));
    let mut worknode = Worknode::new(Worknodecore::AINode(ai_node));
    let uid = worknode.get_uid();
    let request = match worknode.excute("请介绍一下你自己".to_string()).unwrap() {
        Dispatch::Post(request) => request,
        Dispatch::Done(_) => panic!("an AI node has a request to post"),
    };
    assert_eq!(request.url, "https://api.deepseek.ai/v1/chat/completions");
    let body = json::parse(&request.body).unwrap();
    assert_eq!(body["messages"][0]["content"], "你是一只可爱的猫娘");
    assert_eq!(body["messages"][1]["content"], "\n请介绍一下你自己\n");
    let answer = worknode.resume(ok_reply("我是\"猫娘\"")).unwrap();
    assert_eq!(answer, "我是\"猫娘\"");
    assert_eq!(
        history_of(&worknode),
        vec![
            ("system".to_string(), "你是一只可爱的猫娘".to_string()),
            ("user".to_string(), "\n请介绍一下你自己\n".to_string()),
            ("assistant".to_string(), "我是\"猫娘\"".to_string()),
        ]
    );
    assert_eq!(worknode.get_uid(), uid);
}

#[test]
fn other_nodes_finish_at_once_with_nothing() {
    for core in [
        Worknodecore::Start,
        Worknodecore::End,
        Worknodecore::Local,
        Worknodecore::User,
    ] {
        let mut worknode = Worknode::new(core);
        match worknode.excute("anything".to_string()).unwrap() {
            Dispatch::Done(output) => assert_eq!(output, ""),
            Dispatch::Post(_) => panic!("only an AI node has a request to post"),
        }
        assert_eq!(worknode.resume(HttpOutcome::NotSent).unwrap(), "");
        assert!(!matches!(worknode.get_node(), Worknodecore::AINode(_)));
    }
    let mut core = Worknodecore::Start;
    assert!(matches!(core.excute(String::new()), Ok(Dispatch::Done(_))));
    assert!(matches!(core, Worknodecore::Start));
    assert_eq!(core.resume(ok_reply("x")).unwrap(), "");
}

#[test]
fn failing_ai_node_is_wrapped_once() {
    let client = DeepSeekClient::new("U", DeepSeekModel::DeepseekChat);
    let mut worknode =
        Worknode::new(Worknodecore::AINode(AINode::new(AIService::new_deepseek(client))));
    let error = worknode.excute("Hi".to_string()).unwrap_err();
    assert_eq!(error.message(), "AI node failed to execute");
    match error.error_type() {
        PilotErrorType::AINodeErr(cause) => {
            assert_eq!(cause.message(), "Failed to send request to DeepSeek");
        }
    }
    assert_eq!(
        error.to_string(),
        "AINodeError: AI node failed to execute\nDeepSeekError: Failed to send request to DeepSeek\nRequestParamError: The parameters are not valid."
    );
    assert_eq!(history_of(&worknode), vec![("user".to_string(), "\nHi\n".to_string())]);

    let mut core = Worknodecore::AINode(AINode::new(AIService::new_deepseek(client_for_worknode())));
    let error = core.resume(HttpOutcome::NotSent).unwrap_err();
    assert_eq!(
        error.to_string(),
        "AINodeError: AI node failed to execute\nDeepSeekError: Failed to send request to DeepSeek\nRequestError: Failed to send request."
    );
}

#[test]
fn identifiers_are_random_and_kept() {
    let mut first = Worknode::new(Worknodecore::Start);
    let second = Worknode::new(Worknodecore::Start);
    assert_ne!(first.get_uid(), second.get_uid());
    assert_eq!(first.get_uid().get_version_num(), 4);
    let uid = first.get_uid();
    first.set_node(Worknodecore::End);
    assert!(matches!(first.get_node(), Worknodecore::End));
    assert_eq!(first.get_uid(), uid);
    first.excute("x".to_string()).unwrap();
    assert_eq!(first.get_uid(), uid);
}
