use dob_link::Address;
use dob_link::DobLinkContract;
use dob_link::InvestmentStatus;

#[test]
fn test_contract_initialization() {
    let mut contract = DobLinkContract::new();
    let admin = Address { id: 1 };

    contract.init(admin).unwrap();

    let retrieved_admin = contract.get_admin().unwrap();
    assert_eq!(retrieved_admin, admin);
}

#[test]
fn test_init() {
    let mut contract = DobLinkContract::new();
    let admin = Address { id: 1 };

    contract.init(admin).unwrap();

    let stored_admin = contract.get_admin().unwrap();
    assert_eq!(stored_admin, admin);
}

#[test]
fn test_test_contract_initialization() {
    let mut contract = DobLinkContract::new();
    let admin = Address { id: 1 };

    contract.init(admin).unwrap();

    let stored_admin = contract.get_admin().unwrap();
    assert_eq!(stored_admin, admin);
}

#[test]
fn test_token_info() {
    let mut contract = DobLinkContract::new();
    let admin = Address { id: 1 };
    contract.init(admin).unwrap();

    let token_info = contract.get_token_info().unwrap();
    assert_eq!(token_info.id, "EVCHARGER001".to_string());
    assert_eq!(token_info.name, "Electric Vehicle Charging Network".to_string());
    assert_eq!(token_info.apy, 1250); // 12.5%
    assert_eq!(token_info.total_value_locked, 2400000000); // $2.4M
}

#[test]
fn test_create_investment() {
    let mut contract = DobLinkContract::new();
    let admin = Address { id: 1 };
    let buyer = Address { id: 2 };

    contract.init(admin).unwrap();

    let investment_amount: i128 = 50000000; // $50
    let token_id = "EVCHARGER001".to_string();

    let investment_id = contract
        .create_investment(buyer, token_id.clone(), investment_amount, 0)
        .unwrap();
    assert_eq!(investment_id, 1);

    let investment = contract.get_investment(investment_id).unwrap();
    assert_eq!(investment.buyer, buyer);
    assert_eq!(investment.token_id, token_id);
    assert_eq!(investment.amount, investment_amount);
    assert_eq!(investment.status, InvestmentStatus::Pending);
}

#[test]
fn test_investment_validation() {
    let mut contract = DobLinkContract::new();
    let admin = Address { id: 1 };
    let buyer = Address { id: 2 };

    contract.init(admin).unwrap();

    let token_id = "EVCHARGER001".to_string();

    // Minimum investment validation
    let too_small_amount: i128 = 5000000; // $5 (below $10 minimum)
    let result = contract.create_investment(buyer, token_id.clone(), too_small_amount, 0);
    assert!(result.is_err());

    // Maximum investment validation
    let too_large_amount: i128 = 200000000000; // $200K (above $100K maximum)
    let result = contract.create_investment(buyer, token_id.clone(), too_large_amount, 0);
    assert!(result.is_err());
}

#[test]
fn test_get_buyer_investments() {
    let mut contract = DobLinkContract::new();
    let admin = Address { id: 1 };
    let buyer = Address { id: 2 };

    contract.init(admin).unwrap();

    let token_id = "EVCHARGER001".to_string();

    contract.create_investment(buyer, token_id.clone(), 50000000, 0).unwrap(); // $50
    contract.create_investment(buyer, token_id.clone(), 75000000, 0).unwrap(); // $75

    let investments = contract.get_buyer_investments(&buyer).unwrap();
    assert_eq!(investments.len(), 2);
    assert_eq!(investments[0].amount, 50000000);
    assert_eq!(investments[1].amount, 75000000);
}

#[test]
fn test_update_investment_status() {
    let mut contract = DobLinkContract::new();
    let admin = Address { id: 1 };
    let buyer = Address { id: 2 };

    contract.init(admin).unwrap();

    let token_id = "EVCHARGER001".to_string();
    let investment_id = contract
        .create_investment(buyer, token_id, 50000000, 0)
        .unwrap();

    contract
        .update_investment_status(&admin, investment_id, InvestmentStatus::Completed)
        .unwrap();

    let investment = contract.get_investment(investment_id).unwrap();
    assert_eq!(investment.status, InvestmentStatus::Completed);
}

#[test]
fn test_get_stats() {
    let mut contract = DobLinkContract::new();
    let admin = Address { id: 1 };
    let buyer1 = Address { id: 2 };
    let buyer2 = Address { id: 3 };

    contract.init(admin).unwrap();

    let token_id = "EVCHARGER001".to_string();

    contract.create_investment(buyer1, token_id.clone(), 50000000, 0).unwrap(); // $50
    contract.create_investment(buyer2, token_id.clone(), 75000000, 0).unwrap(); // $75

    contract
        .update_investment_status(&admin, 1, InvestmentStatus::Completed)
        .unwrap();

    let stats = contract.get_stats().unwrap();
    assert_eq!(stats.len(), 3);
    assert_eq!(stats[0], 2); // total investments
    assert_eq!(stats[1], 125000000); // total amount ($125)
    assert_eq!(stats[2], 1); // completed investments
}

#[test]
fn test_empty_investments() {
    let mut contract = DobLinkContract::new();
    let admin = Address { id: 1 };
    let investor = Address { id: 2 };

    contract.init(admin).unwrap();

    let investments = contract.get_buyer_investments(&investor).unwrap();
    assert_eq!(investments.len(), 0);

    let all_investments = contract.get_all_investments().unwrap();
    assert_eq!(all_investments.len(), 0);
}
