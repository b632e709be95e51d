use snipix::base;
use snipix::contract::{handle, init, query, Env, HandleOutcome, QueryOutcome};
use snipix::error::ContractError;
use snipix::marketing_info::MarketingStore;
use snipix::msg::{
    EmbeddedLogo, HandleAnswer, HandleMsg, InitMsg, Logo, MarketingInfo, QueryAnswer, QueryMsg,
};
use snipix::transaction_history::BlockInfo;

fn mock_env(sender: &str) -> Env {
    Env { block: BlockInfo { height: 12_345, time: 1_571_797_419 }, sender: sender.to_string() }
}

fn init_helper(
    marketing_info: Option<MarketingInfo>,
) -> (Result<base::InitMsg, ContractError>, MarketingStore) {
    let mut store = MarketingStore::new();
    let env = mock_env("instantiator");

    let init_msg = InitMsg {
        name: "sec-sec".to_string(),
        admin: Some("admin".to_string()),
        symbol: "SECSEC".to_string(),
        decimals: 8,
        initial_balances: None,
        prng_seed: "lolz fun yay".as_bytes().to_vec(),
        config: None,
        marketing_info,
    };

    (init(&mut store, &env, init_msg), store)
}

fn marketing_answer(store: &MarketingStore) -> Option<MarketingInfo> {
    match query(store, QueryMsg::MarketingInfo {}).unwrap() {
        QueryOutcome::Answer(QueryAnswer::MarketingInfo { marketing_info }) => marketing_info,
        _ => panic!("Impossible"),
    }
}

#[test]
fn test_initiate_marketing_info() {
    let init_marketing_info = Some(MarketingInfo {
        project: None,
        description: None,
        marketing: None,
        logo: Some(Logo::Url(
            "https://assets.coingecko.com/coins/images/11871/large/Secret.png".into(),
        )),
    });

    let (init_result, store) = init_helper(init_marketing_info.clone());

    assert!(init_result.is_ok());

    let query_result = query(&store, QueryMsg::MarketingInfo {}).unwrap();

    match query_result {
        QueryOutcome::Answer(QueryAnswer::MarketingInfo { marketing_info }) => {
            assert_eq!(init_marketing_info, marketing_info)
        }
        _ => panic!("Impossible"),
    }
}

#[test]
fn test_update_marketing_info() {
    let init_marketing_info = None;

    let (_, mut store) = init_helper(init_marketing_info.clone());

    let wanted_marketing_info = Some(MarketingInfo {
        project: Some("Deploy Contracts".into()),
        description: Some("Click, click, click, and here's your own SNIP-20 token".into()),
        marketing: None,
        logo: Some(Logo::Url(
            "https://assets.coingecko.com/coins/images/11871/large/Secret.png".into(),
        )),
    });

    let handle_response = handle(
        &mut store,
        &mock_env("sender"),
        HandleMsg::SetMarketingInfo {
            marketing_info: wanted_marketing_info.clone(),
            padding: None,
        },
    );

    assert!(handle_response.is_ok());

    let query_result = query(&store, QueryMsg::MarketingInfo {}).unwrap();

    match query_result {
        QueryOutcome::Answer(QueryAnswer::MarketingInfo { marketing_info }) => {
            assert_eq!(marketing_info, wanted_marketing_info)
        }
        _ => panic!("Impossible"),
    }
}

#[test]
fn init_hands_on_the_base_message() {
    let info = MarketingInfo {
        project: Some("Deploy Contracts".into()),
        description: None,
        marketing: None,
        logo: None,
    };
    let (init_result, _) = init_helper(Some(info));
    assert_eq!(
        init_result,
        Ok(base::InitMsg {
            name: "sec-sec".to_string(),
            admin: Some("admin".to_string()),
            symbol: "SECSEC".to_string(),
            decimals: 8,
            initial_balances: None,
            prng_seed: "lolz fun yay".as_bytes().to_vec(),
            config: None,
        })
    );
}

#[test]
fn unset_marketing_info_is_answered_with_none() {
    let (init_result, store) = init_helper(None);
    assert!(init_result.is_ok());
    assert_eq!(marketing_answer(&store), None);
}

#[test]
fn scenario_set_then_query_returns_the_record() {
    let (init_result, mut store) = init_helper(None);
    assert!(init_result.is_ok());
    assert_eq!(marketing_answer(&store), None);

    let record = MarketingInfo {
        project: Some("Deploy Contracts".into()),
        description: None,
        marketing: None,
        logo: Some(Logo::Url(
            "https://assets.coingecko.com/coins/images/11871/large/Secret.png".into(),
        )),
    };
    let outcome = handle(
        &mut store,
        &mock_env("sender"),
        HandleMsg::SetMarketingInfo { marketing_info: Some(record.clone()), padding: None },
    );
    assert_eq!(
        outcome,
        Ok(HandleOutcome::Answer(HandleAnswer::SetMarketingInfo {
            status: base::ResponseStatus::Success
        }))
    );
    assert_eq!(marketing_answer(&store), Some(record));
}

#[test]
fn clearing_the_record_reads_back_as_none() {
    let record = MarketingInfo {
        project: Some("p".into()),
        description: Some("d".into()),
        marketing: Some("m".into()),
        logo: None,
    };
    let (_, mut store) = init_helper(Some(record.clone()));
    assert_eq!(marketing_answer(&store), Some(record));
    let outcome = handle(
        &mut store,
        &mock_env("sender"),
        HandleMsg::SetMarketingInfo { marketing_info: None, padding: Some("pad".into()) },
    );
    assert!(outcome.is_ok());
    assert_eq!(marketing_answer(&store), None);
}

#[test]
fn a_replacement_keeps_nothing_of_the_old_record() {
    let first = MarketingInfo {
        project: Some("first".into()),
        description: Some("kept?".into()),
        marketing: None,
        logo: None,
    };
    let second = MarketingInfo {
        project: None,
        description: None,
        marketing: Some("second".into()),
        logo: None,
    };
    let (_, mut store) = init_helper(Some(first));
    handle(
        &mut store,
        &mock_env("sender"),
        HandleMsg::SetMarketingInfo { marketing_info: Some(second.clone()), padding: None },
    )
    .unwrap();
    assert_eq!(marketing_answer(&store), Some(second));
}

#[test]
fn an_oversized_logo_is_refused_and_changes_nothing() {
    let record = MarketingInfo {
        project: Some("kept".into()),
        description: None,
        marketing: None,
        logo: None,
    };
    let (_, mut store) = init_helper(Some(record.clone()));

    let data = vec![0u8; 5121];
    let too_big = MarketingInfo {
        project: None,
        description: None,
        marketing: None,
        logo: Some(Logo::Embedded(EmbeddedLogo::Png(data))),
    };
    let outcome = handle(
        &mut store,
        &mock_env("sender"),
        HandleMsg::SetMarketingInfo { marketing_info: Some(too_big), padding: None },
    );
    assert_eq!(outcome, Err(ContractError::InvalidInput));
    assert_eq!(marketing_answer(&store), Some(record));
}

#[test]
fn init_refuses_an_oversized_logo() {
    let bad = MarketingInfo {
        project: None,
        description: None,
        marketing: None,
        logo: Some(Logo::Embedded(EmbeddedLogo::Svg(vec![b' '; 5121]))),
    };
    let (init_result, store) = init_helper(Some(bad));
    assert_eq!(init_result, Err(ContractError::InvalidInput));
    assert_eq!(marketing_answer(&store), None);
}

#[test]
fn init_writes_a_logo_of_any_bytes_within_the_cap() {
    let record = MarketingInfo {
        project: None,
        description: None,
        marketing: None,
        logo: Some(Logo::Embedded(EmbeddedLogo::Png(vec![1, 2, 3]))),
    };
    let (init_result, store) = init_helper(Some(record.clone()));
    assert!(init_result.is_ok());
    assert_eq!(marketing_answer(&store), Some(record));
}

fn svg_behind_a_space() -> MarketingInfo {
    MarketingInfo {
        project: Some("Deploy Contracts".into()),
        description: Some("d".into()),
        marketing: Some("m".into()),
        logo: Some(Logo::Embedded(EmbeddedLogo::Svg(
            " <svg xmlns=\"http://www.w3.org/2000/svg\"/>".as_bytes().to_vec(),
        ))),
    }
}

#[test]
fn a_logo_within_the_cap_is_written_whatever_the_store_held() {
    let wanted = svg_behind_a_space();
    let set = HandleMsg::SetMarketingInfo { marketing_info: Some(wanted.clone()), padding: None };
    let answered = Ok(HandleOutcome::Answer(HandleAnswer::SetMarketingInfo {
        status: base::ResponseStatus::Success,
    }));

    let (_, mut never_written) = init_helper(None);
    assert_eq!(handle(&mut never_written, &mock_env("sender"), set.clone()), answered);
    assert_eq!(marketing_answer(&never_written), Some(wanted.clone()));

    let (_, mut cleared) = init_helper(None);
    handle(
        &mut cleared,
        &mock_env("sender"),
        HandleMsg::SetMarketingInfo { marketing_info: None, padding: None },
    )
    .unwrap();
    assert_eq!(handle(&mut cleared, &mock_env("sender"), set.clone()), answered);
    assert_eq!(marketing_answer(&cleared), Some(wanted.clone()));

    let old = MarketingInfo {
        project: Some("old".into()),
        description: Some("old".into()),
        marketing: Some("old".into()),
        logo: Some(Logo::Url("https://example.com/old.png".into())),
    };
    let (_, mut holding) = init_helper(Some(old));
    assert_eq!(handle(&mut holding, &mock_env("sender"), set), answered);
    assert_eq!(marketing_answer(&holding), Some(wanted));
}

#[test]
fn a_logo_at_the_cap_is_written_and_read_back() {
    let record = MarketingInfo {
        project: None,
        description: None,
        marketing: None,
        logo: Some(Logo::Embedded(EmbeddedLogo::Png(vec![0xAB; 5120]))),
    };
    let (_, mut store) = init_helper(None);
    let outcome = handle(
        &mut store,
        &mock_env("sender"),
        HandleMsg::SetMarketingInfo { marketing_info: Some(record.clone()), padding: None },
    );
    assert!(outcome.is_ok());
    assert_eq!(marketing_answer(&store), Some(record));
}

#[test]
fn other_commands_are_handed_on_in_the_base_schema() {
    let (_, mut store) = init_helper(None);
    let outcome = handle(
        &mut store,
        &mock_env("sender"),
        HandleMsg::Transfer {
            recipient: "bob".into(),
            amount: 1000,
            memo: Some("rent".into()),
            padding: None,
        },
    );
    assert_eq!(
        outcome,
        Ok(HandleOutcome::Forward(base::HandleMsg::Transfer {
            recipient: "bob".into(),
            amount: 1000,
            memo: Some("rent".into()),
            padding: None,
        }))
    );
    assert_eq!(marketing_answer(&store), None);
}

#[test]
fn other_queries_are_handed_on_in_the_base_schema() {
    let (_, store) = init_helper(None);
    let outcome = query(
        &store,
        QueryMsg::Balance { address: "alice".into(), key: "secret".into() },
    );
    assert_eq!(
        outcome,
        Ok(QueryOutcome::Forward(base::QueryMsg::Balance {
            address: "alice".into(),
            key: "secret".into()
        }))
    );
    let outcome = query(&store, QueryMsg::TokenInfo {});
    assert_eq!(outcome, Ok(QueryOutcome::Forward(base::QueryMsg::TokenInfo {})));
}

#[test]
fn any_sender_may_replace_the_record() {
    let record = MarketingInfo {
        project: Some("anyone".into()),
        description: None,
        marketing: None,
        logo: None,
    };
    let (_, mut first) = init_helper(None);
    let (_, mut second) = init_helper(None);
    let by_admin = handle(
        &mut first,
        &mock_env("admin"),
        HandleMsg::SetMarketingInfo { marketing_info: Some(record.clone()), padding: None },
    );
    let by_stranger = handle(
        &mut second,
        &Env { block: BlockInfo { height: 1, time: 2 }, sender: "stranger".to_string() },
        HandleMsg::SetMarketingInfo { marketing_info: Some(record.clone()), padding: None },
    );
    assert_eq!(by_admin, by_stranger);
    assert_eq!(marketing_answer(&first), Some(record.clone()));
    assert_eq!(marketing_answer(&second), Some(record));
}
